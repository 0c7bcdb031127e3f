//! A mod's build: finding its jars and reading what a jar says of the mod.

use vstd::prelude::*;
use crate::error::{fails_with, ErrorKind, PeonyError};
use crate::models::project_type::mc_mod::{Jar, ModInfo, ModJars};
use crate::models::util::TempInfo;
use crate::modrinth::FileType;
use crate::outside::{json_error_words, json_member, json_member_text};
use crate::text::{decimal, decimal_text, ends_with, has_suffix, trimmed};
use crate::util::{file_name_of, file_name_text, join_path, joined_path, trim_quotes};

verus! {

/// The Gradle wrapper script of the project, as it is called from the
/// project's directory: the batch file on Windows, the shell script
/// elsewhere.
pub fn gradle_script(windows: bool) -> (out: &'static str)
    ensures
        out@ == if windows {
            ".\\gradlew.bat"@
        } else {
            "./gradlew"@
        },
{
    if windows {
        ".\\gradlew.bat"
    } else {
        "./gradlew"
    }
}

/// Where a Gradle build puts its jars, inside the workspace `dir_path`.
pub open spec fn libs_dir_text(dir_path: Seq<char>) -> Seq<char> {
    joined_path(joined_path(dir_path, "build"@), "libs"@)
}

/// The directory of the workspace in which the build puts its jars. What an
/// earlier build left there is removed before the build runs.
pub fn libs_dir(tmp_dir_info: &TempInfo) -> (out: String)
    ensures
        out@ == libs_dir_text(tmp_dir_info.dir_path@),
{
    let build = join_path(tmp_dir_info.dir_path.as_str(), "build");
    join_path(build.as_str(), "libs")
}

/// The pattern that finds the jars of a build: every file in the build's
/// directory of jars whose name ends in `.jar`.
pub fn jar_pattern(tmp_dir_info: &TempInfo) -> (out: String)
    ensures
        out@ == joined_path(libs_dir_text(tmp_dir_info.dir_path@), "*.jar"@),
{
    let libs = libs_dir(tmp_dir_info);
    join_path(libs.as_str(), "*.jar")
}

/// What a file of the name `file_name` holds: sources if the name ends in
/// `-sources.jar`, else the mod if it ends in `.jar`, else nothing of
/// interest.
pub open spec fn jar_type(file_name: Seq<char>) -> Option<FileType> {
    if ends_with(file_name, "-sources.jar"@) {
        Some(FileType::Sources)
    } else if ends_with(file_name, ".jar"@) {
        Some(FileType::Mod)
    } else {
        None
    }
}

/// Tells what a file holds, by its name.
pub fn classify_jar(file_name: &str) -> (out: Option<FileType>)
    ensures
        out == jar_type(file_name@),
{
    if has_suffix(file_name, "-sources.jar") {
        Some(FileType::Sources)
    } else if has_suffix(file_name, ".jar") {
        Some(FileType::Mod)
    } else {
        None
    }
}

/// Why a match of the search cannot be used, if it cannot: it could not be
/// read, or its path has no file name.
pub open spec fn entry_failure(entry: Result<String, String>) -> Option<(ErrorKind, Seq<char>)> {
    match entry {
        Err(words) => Some((ErrorKind::JarGlobEntry, words@)),
        Ok(path) => if file_name_text(path@) is None {
            Some((ErrorKind::JarFileName, Seq::empty()))
        } else {
            None
        },
    }
}

/// The failure of the first match that cannot be used, if there is one.
pub open spec fn first_failure(entries: Seq<Result<String, String>>) -> Option<
    (ErrorKind, Seq<char>),
>
    decreases entries.len(),
{
    if entries.len() == 0 {
        None
    } else {
        match first_failure(entries.drop_last()) {
            Some(failure) => Some(failure),
            None => entry_failure(entries.last()),
        }
    }
}

/// Whether a match is a jar of the kind `kind`.
pub open spec fn is_jar_of(entry: Result<String, String>, kind: FileType) -> bool {
    entry matches Ok(path) && file_name_text(path@) matches Some(name) && jar_type(name) == Some(
        kind,
    )
}

/// The paths of the jars of the kind `kind` among the matches, in order.
pub open spec fn jars_of(entries: Seq<Result<String, String>>, kind: FileType) -> Seq<Seq<char>>
    decreases entries.len(),
{
    if entries.len() == 0 {
        Seq::empty()
    } else if is_jar_of(entries.last(), kind) {
        jars_of(entries.drop_last(), kind).push(entries.last()->Ok_0@)
    } else {
        jars_of(entries.drop_last(), kind)
    }
}

/// `jar` is the jar at `path`, under the path's file name.
pub open spec fn is_jar_at(jar: Jar, path: Seq<char>) -> bool {
    jar.file_path@ == path && Some(jar.file_name@) == file_name_text(path)
}

/// The jars of a build among `entries`, which is what the search with
/// [`jar_pattern`] gave, in its order: for each match its path, or the words
/// of the failure to read it.
///
/// A match that cannot be used is a failure, the first such match deciding.
/// Otherwise the build must have left exactly one jar of the mod, and at
/// most one sources jar: any other number is a failure that tells the number
/// found, that of the mod's jars before that of the sources jars.
pub fn find_jars(entries: &Vec<Result<String, String>>) -> (out: Result<ModJars, PeonyError>)
    ensures
        match first_failure(entries@) {
            Some((kind, detail)) => fails_with(out, kind, detail),
            None => {
                let mods = jars_of(entries@, FileType::Mod);
                let sources = jars_of(entries@, FileType::Sources);
                if mods.len() != 1 {
                    fails_with(out, ErrorKind::ModJarCount, decimal(mods.len()))
                } else if sources.len() > 1 {
                    fails_with(out, ErrorKind::SourcesJarCount, decimal(sources.len()))
                } else {
                    &&& out matches Ok(jars)
                    &&& is_jar_at(jars.mod_jar, mods[0])
                    &&& match jars.sources_jar {
                        Some(jar) => sources.len() == 1 && is_jar_at(jar, sources[0]),
                        None => sources.len() == 0,
                    }
                }
            },
        },
{
    let mut possible_jars: Vec<Jar> = Vec::new();
    let mut possible_sources_jars: Vec<Jar> = Vec::new();
    let mut i: usize = 0;
    assert(entries@.take(0) =~= Seq::<Result<String, String>>::empty());
    while i < entries.len()
        invariant
            i <= entries.len(),
            first_failure(entries@.take(i as int)) is None,
            possible_jars@.len() == jars_of(entries@.take(i as int), FileType::Mod).len(),
            possible_sources_jars@.len() == jars_of(
                entries@.take(i as int),
                FileType::Sources,
            ).len(),
            forall|k: int|
                0 <= k < possible_jars@.len() ==> is_jar_at(
                    #[trigger] possible_jars@[k],
                    jars_of(entries@.take(i as int), FileType::Mod)[k],
                ),
            forall|k: int|
                0 <= k < possible_sources_jars@.len() ==> is_jar_at(
                    #[trigger] possible_sources_jars@[k],
                    jars_of(entries@.take(i as int), FileType::Sources)[k],
                ),
        decreases entries.len() - i,
    {
        let ghost before = entries@.take(i as int);
        let ghost upto = entries@.take(i + 1);
        assert(upto.drop_last() =~= before);
        assert(upto.last() == entries@[i as int]);
        let jar_path = match &entries[i] {
            Ok(path) => path,
            Err(words) => {
                proof {
                    lemma_first_failure_stays(entries@, i + 1);
                }
                return Err(PeonyError::new(ErrorKind::JarGlobEntry, words.clone()));
            },
        };
        let file_name = match file_name_of(jar_path.as_str()) {
            Some(name) => name,
            None => {
                proof {
                    lemma_first_failure_stays(entries@, i + 1);
                }
                return Err(PeonyError::plain(ErrorKind::JarFileName));
            },
        };
        match classify_jar(file_name.as_str()) {
            Some(FileType::Sources) => {
                possible_sources_jars.push(Jar { file_name, file_path: jar_path.clone() });
            },
            Some(FileType::Mod) => {
                possible_jars.push(Jar { file_name, file_path: jar_path.clone() });
            },
            None => {},
        }
        i = i + 1;
    }
    assert(entries@.take(entries.len() as int) =~= entries@);
    if possible_jars.len() != 1 {
        return Err(
            PeonyError::new(ErrorKind::ModJarCount, decimal_text(possible_jars.len() as u64)),
        );
    }
    if possible_sources_jars.len() > 1 {
        return Err(
            PeonyError::new(
                ErrorKind::SourcesJarCount,
                decimal_text(possible_sources_jars.len() as u64),
            ),
        );
    }
    let sources_jar = possible_sources_jars.pop();
    let mod_jar = match possible_jars.pop() {
        Some(jar) => jar,
        None => return Err(PeonyError::new(ErrorKind::ModJarCount, decimal_text(0))),
    };
    Ok(ModJars { mod_jar, sources_jar })
}

/// A failure among the first matches is the failure of the whole list.
proof fn lemma_first_failure_stays(entries: Seq<Result<String, String>>, n: int)
    requires
        0 <= n <= entries.len(),
        first_failure(entries.take(n)) is Some,
    ensures
        first_failure(entries) == first_failure(entries.take(n)),
    decreases entries.len() - n,
{
    if n < entries.len() {
        assert(entries.take(n + 1).drop_last() =~= entries.take(n));
        lemma_first_failure_stays(entries, n + 1);
    } else {
        assert(entries.take(n) =~= entries);
    }
}

/// The file in a jar that tells of the mod, by loader.
#[derive(Debug, Clone, Copy, PartialEq, Eq, Structural)]
pub enum MetadataFile {
    Fabric,
    Quilt,
}

impl MetadataFile {
    /// The name of the file inside the jar.
    pub open spec fn file_name_text(self) -> Seq<char> {
        match self {
            MetadataFile::Fabric => "fabric.mod.json"@,
            MetadataFile::Quilt => "quilt.mod.json"@,
        }
    }

    /// The name of the file inside the jar.
    pub fn file_name(&self) -> (out: &'static str)
        ensures
            out@ == self.file_name_text(),
    {
        match self {
            MetadataFile::Fabric => "fabric.mod.json",
            MetadataFile::Quilt => "quilt.mod.json",
        }
    }

    /// The kind of failure that this file could not be taken from the jar.
    pub fn read_failure(&self) -> (out: ErrorKind)
        ensures
            out == match self {
                MetadataFile::Fabric => ErrorKind::FabricMetadata,
                MetadataFile::Quilt => ErrorKind::QuiltMetadata,
            },
    {
        match self {
            MetadataFile::Fabric => ErrorKind::FabricMetadata,
            MetadataFile::Quilt => ErrorKind::QuiltMetadata,
        }
    }
}

/// The metadata file to read from a jar that holds Fabric's file, Quilt's
/// file, both or neither: Fabric's where it is there, else Quilt's, and a
/// failure where neither is.
pub fn get_loader_file(has_fabric: bool, has_quilt: bool) -> (out: Result<MetadataFile, PeonyError>)
    ensures
        has_fabric ==> (out matches Ok(file) && file == MetadataFile::Fabric),
        !has_fabric && has_quilt ==> (out matches Ok(file) && file == MetadataFile::Quilt),
        !has_fabric && !has_quilt ==> fails_with(out, ErrorKind::MetadataMissing, Seq::empty()),
{
    if has_fabric {
        Ok(MetadataFile::Fabric)
    } else if has_quilt {
        Ok(MetadataFile::Quilt)
    } else {
        Err(PeonyError::plain(ErrorKind::MetadataMissing))
    }
}

/// What a jar says of the mod, made of the three members of its metadata as
/// JSON writes them: each loses the double quotes at its start and its end.
pub fn mod_info_from_members(name: String, id: String, version: String) -> (out: ModInfo)
    ensures
        out.name@ == trimmed(name@, '"'),
        out.id@ == trimmed(id@, '"'),
        out.version@ == trimmed(version@, '"'),
{
    ModInfo { name: trim_quotes(name), id: trim_quotes(id), version: trim_quotes(version) }
}

/// What the metadata file `metadata` says of the mod: its members `name`,
/// `id` and `version`, each as JSON writes it, without the double quotes at
/// its start and its end. So a member that is a string gives its text, a
/// number its digits, and one that is missing gives `null`.
///
/// It is a failure if `metadata` is not JSON.
pub fn mod_info(metadata: &str) -> (out: Result<ModInfo, PeonyError>)
    ensures
        match (
            json_member_text(metadata@, "name"@),
            json_member_text(metadata@, "id"@),
            json_member_text(metadata@, "version"@),
        ) {
            (Some(name), Some(id), Some(version)) => {
                &&& out matches Ok(info)
                &&& info.name@ == trimmed(name, '"')
                &&& info.id@ == trimmed(id, '"')
                &&& info.version@ == trimmed(version, '"')
            },
            _ => out matches Err(e) && e.kind == ErrorKind::MetadataParse,
        },
{
    let name = match json_member(metadata, "name") {
        Ok(text) => text,
        Err(error) => return Err(
            PeonyError::new(ErrorKind::MetadataParse, json_error_words(&error)),
        ),
    };
    let id = match json_member(metadata, "id") {
        Ok(text) => text,
        Err(error) => return Err(
            PeonyError::new(ErrorKind::MetadataParse, json_error_words(&error)),
        ),
    };
    let version = match json_member(metadata, "version") {
        Ok(text) => text,
        Err(error) => return Err(
            PeonyError::new(ErrorKind::MetadataParse, json_error_words(&error)),
        ),
    };
    Ok(mod_info_from_members(name, id, version))
}

} // verus!
