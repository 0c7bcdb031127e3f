//! Publishing to the mod platform.
//!
//! A version is created by one request with several parts: the first, `data`,
//! describes the version, and each of the others holds a file. This module
//! says what that request is and what to make of the platform's answer.

use vstd::prelude::*;
use crate::error::{fails_with, message_text, ErrorKind, PeonyError};
use crate::http::{
    header_views, is_success, status_is_success, Body, BodyView, Header, Method, Request,
    RequestView,
};
use crate::models::modrinth::version::{
    dependency_views, VersionDependency, VersionDependencyView, VersionRequest,
    VersionRequestView, VersionStatus, VersionType,
};
use crate::models::modrinth::{Loader, ModrinthUrl};
use crate::models::project_type::mc_mod::config::modrinth::ModrinthDependency;
use crate::models::project_type::mc_mod::config::ModConfig;
use crate::models::project_type::mc_mod::version::ModVersionInfo;
use crate::models::project_type::modpack::config::ModpackConfig;
use crate::models::project_type::modpack::PackFile;
use crate::models::util::OutputFileInfo;
use crate::models::version::VersionInfo;
use crate::text::{ends_with, join2, optional_text, texts};

verus! {

/// A file as it travels in a request: its bytes, its name and its media
/// type.
#[derive(Debug, Clone, PartialEq, Eq)]
pub struct FilePart {
    pub contents: Vec<u8>,
    pub file_name: String,
    pub mime: String,
}

/// A file part seen as plain values.
pub struct FilePartView {
    pub contents: Seq<u8>,
    pub file_name: Seq<char>,
    pub mime: Seq<char>,
}

impl View for FilePart {
    type V = FilePartView;

    open spec fn view(&self) -> FilePartView {
        FilePartView { contents: self.contents@, file_name: self.file_name@, mime: self.mime@ }
    }
}

/// The request that creates a version, before it is put on the wire: the
/// description of the version and the files, each with the name of its part.
/// `part_names` and `parts` go together, one name for each file.
#[derive(Debug, Clone, PartialEq, Eq)]
pub struct VersionForm {
    pub data: VersionRequest,
    pub parts: Vec<FilePart>,
    pub part_names: Vec<String>,
}

impl VersionForm {
    /// Each file has its name.
    pub open spec fn well_formed(self) -> bool {
        self.parts@.len() == self.part_names@.len()
    }

    /// The files as plain values, in order.
    pub open spec fn parts_view(self) -> Seq<FilePartView> {
        Seq::new(self.parts@.len(), |i: int| self.parts@[i]@)
    }
}

/// A jar on its way into a form.
#[derive(Debug, Clone, PartialEq, Eq)]
pub struct JarPart {
    pub file_name: String,
    pub file_part: FilePart,
    pub file_type: FileType,
}

/// What a jar of a mod holds.
#[derive(Debug, Copy, Clone, PartialEq, Eq, Structural)]
pub enum FileType {
    Mod,
    Sources,
}

impl FileType {
    /// The name of the part that carries a jar of this kind.
    pub open spec fn part_name_text(self) -> Seq<char> {
        match self {
            FileType::Mod => "mod_jar"@,
            FileType::Sources => "sources_jar"@,
        }
    }

    /// The name of the part that carries a jar of this kind.
    pub fn part_name(&self) -> (out: String)
        ensures
            out@ == self.part_name_text(),
    {
        match self {
            Self::Mod => "mod_jar",
            Self::Sources => "sources_jar",
        }.to_owned()
    }
}

/// The part that carries a jar.
pub open spec fn jar_part_view(name: Seq<char>, contents: Seq<u8>) -> FilePartView {
    FilePartView { contents, file_name: name, mime: "application/java-archive"@ }
}

/// The parts that carry the jars of a mod: the mod's jar, then the sources
/// jar if there is one.
pub open spec fn mod_parts(mod_files: ModVersionInfo) -> Seq<FilePartView> {
    let first = seq![jar_part_view(mod_files.mod_file.name@, mod_files.mod_file.contents@)];
    match mod_files.sources_file {
        Some(sources) => first.push(jar_part_view(sources.name@, sources.contents@)),
        None => first,
    }
}

/// The names of the parts that carry the jars of a mod.
pub open spec fn mod_part_names(with_sources: bool) -> Seq<Seq<char>> {
    if with_sources {
        seq![FileType::Mod.part_name_text(), FileType::Sources.part_name_text()]
    } else {
        seq![FileType::Mod.part_name_text()]
    }
}

/// Makes the part that carries the jar `name` with `contents`.
fn jar_part(name: &String, contents: &Vec<u8>, file_type: FileType) -> (out: JarPart)
    ensures
        out.file_name@ == name@,
        out.file_part@ == jar_part_view(name@, contents@),
        out.file_type == file_type,
{
    JarPart {
        file_name: name.clone(),
        file_part: FilePart {
            contents: contents.clone(),
            file_name: name.clone(),
            mime: "application/java-archive".to_owned(),
        },
        file_type,
    }
}

/// The form that creates a version of a mod: `request_data` with the mod's
/// jar and, if there is one, its sources jar, each in the part that is named
/// after its kind.
pub fn create_mod_form(mod_files: &ModVersionInfo, request_data: VersionRequest) -> (out:
    VersionForm)
    ensures
        out.well_formed(),
        out.data == request_data,
        out.parts_view() == mod_parts(*mod_files),
        texts(out.part_names@) == mod_part_names(mod_files.sources_file is Some),
{
    let mod_part = jar_part(&mod_files.mod_file.name, &mod_files.mod_file.contents, FileType::Mod);
    let sources_part = match &mod_files.sources_file {
        Some(file) => Some(jar_part(&file.name, &file.contents, FileType::Sources)),
        None => None,
    };
    let mut file_parts: Vec<JarPart> = Vec::new();
    file_parts.push(mod_part);
    if let Some(sources_part_val) = sources_part {
        file_parts.push(sources_part_val);
    }
    let ghost wanted = mod_parts(*mod_files);
    let ghost names = mod_part_names(mod_files.sources_file is Some);
    assert(file_parts@.len() == wanted.len() == names.len());
    assert(forall|k: int|
        0 <= k < file_parts@.len() ==> (#[trigger] file_parts@[k]).file_part@ == wanted[k]
            && file_parts@[k].file_type.part_name_text() == names[k]);
    let mut parts: Vec<FilePart> = Vec::new();
    let mut part_names: Vec<String> = Vec::new();
    let mut i: usize = 0;
    while i < file_parts.len()
        invariant
            i <= file_parts.len(),
            parts@.len() == i,
            part_names@.len() == i,
            file_parts@.len() == wanted.len() == names.len(),
            forall|k: int|
                0 <= k < file_parts@.len() ==> (#[trigger] file_parts@[k]).file_part@ == wanted[k]
                    && file_parts@[k].file_type.part_name_text() == names[k],
            forall|k: int| 0 <= k < i ==> (#[trigger] parts@[k])@ == wanted[k],
            forall|k: int| 0 <= k < i ==> (#[trigger] part_names@[k])@ == names[k],
        decreases file_parts.len() - i,
    {
        let part = &file_parts[i];
        part_names.push(part.file_type.part_name());
        parts.push(
            FilePart {
                contents: part.file_part.contents.clone(),
                file_name: part.file_part.file_name.clone(),
                mime: part.file_part.mime.clone(),
            },
        );
        i = i + 1;
    }
    let out = VersionForm { data: request_data, parts, part_names };
    assert(out.parts_view() =~= wanted);
    assert(texts(out.part_names@) =~= names);
    out
}

/// What the mod platform is told of a modpack version: no dependencies, one
/// game version, one loader, and one file, in the part `file`.
pub open spec fn modpack_version_request(
    config: ModpackConfig,
    pack_file: PackFile,
    output_file_info: OutputFileInfo,
    version_info: VersionInfo,
    changelog: Seq<char>,
    version_type: VersionType,
) -> VersionRequestView {
    VersionRequestView {
        name: version_info.version_name@,
        version_number: pack_file.version@,
        changelog: Some(changelog),
        dependencies: Seq::empty(),
        game_versions: seq![pack_file.versions.minecraft@],
        version_type,
        loaders: seq![version_info.loader],
        featured: false,
        requested_status: VersionStatus::Listed,
        project_id: config.modrinth.project_id@,
        file_parts: seq!["file"@],
        primary_file: output_file_info.file_name@,
    }
}

/// The address to which versions are posted.
pub open spec fn version_url_text(labrinth: Seq<char>) -> Seq<char> {
    labrinth + "/version"@
}

/// The request that publishes a modpack version: a form with the version's
/// description and the archive in the part `file`, posted to the platform
/// with `modrinth_token` as its authorization.
pub fn create_modpack_release(
    config: &ModpackConfig,
    pack_file: &PackFile,
    output_file_info: &OutputFileInfo,
    version_info: &VersionInfo,
    changelog: &String,
    modrinth_token: String,
    modrinth_url: &ModrinthUrl,
    version_type: VersionType,
) -> (out: Request)
    ensures
        out@ == (RequestView {
            method: Method::Post,
            url: version_url_text(modrinth_url.labrinth@),
            headers: seq![("Authorization"@, modrinth_token@)],
            body: BodyView::Form {
                data: modpack_version_request(
                    *config,
                    *pack_file,
                    *output_file_info,
                    *version_info,
                    changelog@,
                    version_type,
                ),
                parts: seq![
                    FilePartView {
                        contents: version_info.file_contents@,
                        file_name: output_file_info.file_name@,
                        mime: "application/zip"@,
                    },
                ],
                part_names: seq!["file"@],
            },
        }),
{
    let mut game_versions: Vec<String> = Vec::new();
    game_versions.push(pack_file.versions.minecraft.clone());
    let mut loaders: Vec<Loader> = Vec::new();
    loaders.push(version_info.loader);
    let mut file_parts: Vec<String> = Vec::new();
    file_parts.push("file".to_owned());
    let modrinth_req = VersionRequest {
        name: version_info.version_name.clone(),
        version_number: pack_file.version.clone(),
        changelog: Some(changelog.clone()),
        dependencies: Vec::new(),
        game_versions,
        version_type,
        loaders,
        featured: false,
        requested_status: VersionStatus::Listed,
        project_id: config.modrinth.project_id.clone(),
        file_parts,
        primary_file: output_file_info.file_name.clone(),
    };
    let file_part = FilePart {
        contents: version_info.file_contents.clone(),
        file_name: output_file_info.file_name.clone(),
        mime: "application/zip".to_owned(),
    };
    let mut parts: Vec<FilePart> = Vec::new();
    parts.push(file_part);
    let mut part_names: Vec<String> = Vec::new();
    part_names.push("file".to_owned());
    let form = VersionForm { data: modrinth_req, parts, part_names };
    let mut headers: Vec<Header> = Vec::new();
    headers.push(Header { name: "Authorization".to_owned(), value: modrinth_token });
    let out = Request {
        method: Method::Post,
        url: join2(modrinth_url.labrinth.as_str(), "/version"),
        headers,
        body: Body::Form(form),
    };
    proof {
        let wanted = modpack_version_request(
            *config,
            *pack_file,
            *output_file_info,
            *version_info,
            changelog@,
            version_type,
        );
        assert(form.data@.dependencies =~= wanted.dependencies);
        assert(form.data@.game_versions =~= wanted.game_versions);
        assert(form.data@.loaders =~= wanted.loaders);
        assert(form.data@.file_parts =~= wanted.file_parts);
        assert(form.data@ == wanted);
        assert(form.parts_view() =~= seq![
            FilePartView {
                contents: version_info.file_contents@,
                file_name: output_file_info.file_name@,
                mime: "application/zip"@,
            },
        ]);
        assert(texts(form.part_names@) =~= seq!["file"@]);
        assert(header_views(out.headers@) =~= seq![
            ("Authorization"@, modrinth_token@),
        ]);
    }
    out
}

/// The dependencies that a mod's configuration states, as the mod platform
/// is told of them: in order, none of them naming a file.
pub open spec fn configured_dependencies(
    dependencies: Option<Vec<ModrinthDependency>>,
) -> Seq<VersionDependencyView> {
    match dependencies {
        Some(list) => Seq::new(
            list@.len(),
            |i: int|
                VersionDependencyView {
                    version_id: optional_text(list@[i].version_id),
                    project_id: optional_text(list@[i].project_id),
                    file_name: None,
                    dependency_type: list@[i].dependency_type,
                },
        ),
        None => Seq::empty(),
    }
}

/// What the mod platform is told of a mod version. The jar of the mod is the
/// primary file.
pub open spec fn mod_version_request(
    config: ModConfig,
    mod_files: ModVersionInfo,
    changelog: Seq<char>,
    version_name: Seq<char>,
    version_type: VersionType,
) -> VersionRequestView {
    VersionRequestView {
        name: version_name,
        version_number: mod_files.version@,
        changelog: Some(changelog),
        dependencies: configured_dependencies(config.modrinth.dependencies),
        game_versions: texts(config.mc_versions@),
        version_type,
        loaders: config.loaders@,
        featured: false,
        requested_status: VersionStatus::Listed,
        project_id: config.modrinth.project_id@,
        file_parts: mod_part_names(mod_files.sources_file is Some),
        primary_file: FileType::Mod.part_name_text(),
    }
}

/// Writes the dependencies of a configuration as the mod platform takes
/// them.
fn version_dependencies(dependencies: &Option<Vec<ModrinthDependency>>) -> (out: Vec<
    VersionDependency,
>)
    ensures
        dependency_views(out@) == configured_dependencies(
            *dependencies,
        ),
{
    let mut out: Vec<VersionDependency> = Vec::new();
    if let Some(list) = dependencies {
        let mut i: usize = 0;
        while i < list.len()
            invariant
                i <= list.len(),
                out@.len() == i,
                forall|k: int|
                    0 <= k < i ==> (#[trigger] out@[k])@ == configured_dependencies(
                        Some(*list),
                    )[k],
            decreases list.len() - i,
        {
            let dep = ModrinthDependency {
                version_id: list[i].version_id.clone(),
                project_id: list[i].project_id.clone(),
                dependency_type: list[i].dependency_type,
            };
            out.push(VersionDependency::from(dep));
            i = i + 1;
        }
    }
    assert(dependency_views(out@) =~= configured_dependencies(
        *dependencies,
    ));
    out
}

/// The request that publishes a mod version, or the failure that the
/// platform's token is not set. `modrinth_token` is what the environment
/// gave: the token, or the words of the failure.
pub fn create_mod_release(
    config: &ModConfig,
    mod_files: &ModVersionInfo,
    changelog: &String,
    modrinth_url: &ModrinthUrl,
    version_name: &String,
    version_type: VersionType,
    modrinth_token: &Result<String, String>,
) -> (out: Result<Request, PeonyError>)
    ensures
        match *modrinth_token {
            Err(words) => fails_with(out, ErrorKind::ModrinthTokenEnv, words@),
            Ok(token) => out matches Ok(request) && request@ == (RequestView {
                method: Method::Post,
                url: version_url_text(modrinth_url.labrinth@),
                headers: seq![("Authorization"@, token@)],
                body: BodyView::Form {
                    data: mod_version_request(
                        *config,
                        *mod_files,
                        changelog@,
                        version_name@,
                        version_type,
                    ),
                    parts: mod_parts(*mod_files),
                    part_names: mod_part_names(mod_files.sources_file is Some),
                },
            }),
        },
{
    let token = match modrinth_token {
        Ok(token) => token.clone(),
        Err(words) => return Err(PeonyError::new(ErrorKind::ModrinthTokenEnv, words.clone())),
    };
    let mut file_part_names: Vec<String> = Vec::new();
    file_part_names.push(FileType::Mod.part_name());
    if mod_files.sources_file.is_some() {
        file_part_names.push(FileType::Sources.part_name());
    }
    let dependencies = version_dependencies(&config.modrinth.dependencies);
    let form_data = VersionRequest {
        name: version_name.clone(),
        version_number: mod_files.version.clone(),
        changelog: Some(changelog.clone()),
        dependencies,
        game_versions: config.mc_versions.clone(),
        version_type,
        loaders: config.loaders.clone(),
        featured: false,
        requested_status: VersionStatus::Listed,
        project_id: config.modrinth.project_id.clone(),
        file_parts: file_part_names,
        primary_file: FileType::Mod.part_name(),
    };
    proof {
        let wanted = mod_version_request(
            *config,
            *mod_files,
            changelog@,
            version_name@,
            version_type,
        );
        assert(form_data@.file_parts =~= wanted.file_parts);
        assert(form_data@.game_versions =~= wanted.game_versions);
        assert(form_data@.loaders =~= wanted.loaders);
        assert(form_data@ == wanted);
    }
    let form = create_mod_form(mod_files, form_data);
    let mut headers: Vec<Header> = Vec::new();
    headers.push(Header { name: "Authorization".to_owned(), value: token });
    let out = Request {
        method: Method::Post,
        url: join2(modrinth_url.labrinth.as_str(), "/version"),
        headers,
        body: Body::Form(form),
    };
    assert(header_views(out.headers@) =~= seq![
        ("Authorization"@, modrinth_token->Ok_0@),
    ]);
    Ok(out)
}

/// What the platform's answer to a version request means: a status from 200
/// to 299 is success, and any other is a failure that carries the body of
/// the answer.
pub fn upload_result(status: u16, body: String) -> (out: Result<(), PeonyError>)
    ensures
        is_success(status) ==> out is Ok,
        !is_success(status) ==> fails_with(out, ErrorKind::ModrinthRejected, body@),
{
    if status_is_success(status) {
        Ok(())
    } else {
        Err(PeonyError::new(ErrorKind::ModrinthRejected, body))
    }
}

/// The sentence that reports a refused version ends with the body of the
/// platform's answer, letter for letter.
pub proof fn lemma_rejection_message_holds_body(body: Seq<char>)
    ensures
        message_text(ErrorKind::ModrinthRejected, body)
            == "Failed to upload version to Modrinth: "@ + body,
        ends_with(message_text(ErrorKind::ModrinthRejected, body), body),
{
    let sentence = message_text(ErrorKind::ModrinthRejected, body);
    reveal_strlit("");
    assert(sentence =~= "Failed to upload version to Modrinth: "@ + body);
    assert(sentence.subrange(sentence.len() - body.len(), sentence.len() as int) =~= body);
}

} // verus!
