//! The changelog, and publishing to the code host.
//!
//! A release is made in two steps: one request creates it, and its answer
//! holds the number under which the files are then attached, one request for
//! each. The functions here say what those requests are.

use vstd::prelude::*;
use crate::error::{fails_with, ErrorKind, PeonyError};
use crate::http::{
    bearer_auth, bearer_text, header, header_views, Body, BodyView, Header, Method, Request,
    RequestView,
};
use crate::models::github::{CreateReleaseRequest, CreateReleaseRequestView, ReleaseResponse};
use crate::models::modrinth::version::VersionType;
use crate::models::project_type::mc_mod::config::ModConfig;
use crate::models::project_type::mc_mod::{ModInfo, ModJars};
use crate::models::project_type::modpack::config::ModpackConfig;
use crate::models::project_type::modpack::PackFile;
use crate::models::util::OutputFileInfo;
use crate::models::version::VersionInfo;
use crate::models::GithubConfig;
use crate::text::{replace, replaced, signed_decimal, signed_decimal_text};

verus! {

/// The name under which this program presents itself to the code host.
pub open spec fn user_agent_text() -> Seq<char> {
    "peony"@
}

/// The address that tells the latest release of a repository.
pub open spec fn latest_release_url_text(owner: Seq<char>, repo: Seq<char>) -> Seq<char> {
    "https://api.github.com/repos/"@ + owner + "/"@ + repo + "/releases/latest"@
}

/// The request for the latest release of the repository.
pub fn latest_release_request(config: &GithubConfig) -> (out: Request)
    ensures
        out@ == (RequestView {
            method: Method::Get,
            url: latest_release_url_text(config.repo_owner@, config.repo_name@),
            headers: seq![("User-Agent"@, user_agent_text())],
            body: BodyView::Empty,
        }),
{
    let mut url = String::from_str("https://api.github.com/repos/");
    url.append(config.repo_owner.as_str());
    url.append("/");
    url.append(config.repo_name.as_str());
    url.append("/releases/latest");
    let mut headers: Vec<Header> = Vec::new();
    headers.push(header("User-Agent", "peony"));
    let out = Request { method: Method::Get, url, headers, body: Body::Empty };
    assert(header_views(out.headers@) =~= seq![("User-Agent"@, user_agent_text())]);
    out
}

/// The hash of the repository's first commit, as git prints it, without the
/// line ends.
pub open spec fn root_commit_text(git_output: Seq<char>) -> Seq<char> {
    replaced(git_output, "\n"@, ""@)
}

/// Takes the line ends out of what git printed.
pub fn root_commit(git_output: &str) -> (out: String)
    ensures
        out@ == root_commit_text(git_output@),
{
    replace(git_output, "\n", "")
}

/// The changelog: one Markdown link to the code host's comparison of `base`
/// with the current head.
pub open spec fn changelog_text(owner: Seq<char>, repo: Seq<char>, base: Seq<char>) -> Seq<char> {
    "[Full Changelog](https://github.com/"@ + owner + "/"@ + repo + "/compare/"@ + base
        + "..HEAD)"@
}

/// What the current head is compared with: the tag of the latest release if
/// the code host told one, else the repository's first commit. Why the code
/// host told none makes no difference.
pub open spec fn compare_base(
    git_output: Seq<char>,
    latest_release: Result<ReleaseResponse, String>,
) -> Seq<char> {
    match latest_release {
        Ok(release) => release.tag_name@,
        Err(_) => root_commit_text(git_output),
    }
}

/// Writes the changelog of a release. `first_commit_output` is what
/// `git rev-list --max-parents=0 HEAD` printed. `latest_release` is what the
/// request of [`latest_release_request`] gave: the release, or the words of
/// the failure, be it that the request could not be sent or that the answer
/// was no release.
///
/// A failure there is no failure of the changelog: the repository then
/// counts as one without a release, and the first commit is the base.
pub fn generate_changelog(
    config: &GithubConfig,
    first_commit_output: &str,
    latest_release: &Result<ReleaseResponse, String>,
) -> (out: String)
    ensures
        out@ == changelog_text(
            config.repo_owner@,
            config.repo_name@,
            compare_base(first_commit_output@, *latest_release),
        ),
{
    let compare_first = match latest_release {
        Ok(release) => release.tag_name.clone(),
        Err(_) => root_commit(first_commit_output),
    };
    let mut out = String::from_str("[Full Changelog](https://github.com/");
    out.append(config.repo_owner.as_str());
    out.append("/");
    out.append(config.repo_name.as_str());
    out.append("/compare/");
    out.append(compare_first.as_str());
    out.append("..HEAD)");
    out
}

/// Whether a release of this channel is marked as a prerelease: every
/// channel but `Release` is.
pub open spec fn is_prerelease(version_type: VersionType) -> bool {
    version_type != VersionType::Release
}

/// The address at which releases of a repository are created.
pub open spec fn releases_url_text(owner: Seq<char>, repo: Seq<char>) -> Seq<char> {
    "https://api.github.com/repos/"@ + owner + "/"@ + repo + "/releases"@
}

/// The headers of a request that creates a release.
pub open spec fn release_headers(token: Seq<char>) -> Seq<(Seq<char>, Seq<char>)> {
    seq![
        ("User-Agent"@, user_agent_text()),
        ("Accept"@, "application/vnd.github+json"@),
        ("Authorization"@, bearer_text(token)),
    ]
}

/// The request that creates the release `new_release_body` in the repository,
/// with `token` as bearer token.
pub fn create_github_release(
    config: &GithubConfig,
    new_release_body: CreateReleaseRequest,
    token: &String,
) -> (out: Request)
    ensures
        out@ == (RequestView {
            method: Method::Post,
            url: releases_url_text(config.repo_owner@, config.repo_name@),
            headers: release_headers(token@),
            body: BodyView::Release(new_release_body@),
        }),
{
    let mut url = String::from_str("https://api.github.com/repos/");
    url.append(config.repo_owner.as_str());
    url.append("/");
    url.append(config.repo_name.as_str());
    url.append("/releases");
    let mut headers: Vec<Header> = Vec::new();
    headers.push(header("User-Agent", "peony"));
    headers.push(header("Accept", "application/vnd.github+json"));
    headers.push(bearer_auth(token.as_str()));
    let out = Request { method: Method::Post, url, headers, body: Body::Release(new_release_body) };
    assert(header_views(out.headers@) =~= release_headers(token@));
    out
}

/// The release of a modpack: tagged with the pack's version, titled with the
/// release name, and described by the changelog.
pub open spec fn modpack_release_body(
    pack_file: PackFile,
    version_info: VersionInfo,
    changelog: Seq<char>,
    version_type: VersionType,
) -> CreateReleaseRequestView {
    CreateReleaseRequestView {
        tag_name: pack_file.version@,
        name: Some(version_info.version_name@),
        body: Some(changelog),
        prerelease: is_prerelease(version_type),
    }
}

/// Tells whether a release of this channel is marked as a prerelease.
fn prerelease(version_type: VersionType) -> (out: bool)
    ensures
        out == is_prerelease(version_type),
{
    match version_type {
        VersionType::Release => false,
        VersionType::Beta => true,
        VersionType::Alpha => true,
    }
}

/// The request that creates the release of a modpack, or the failure that
/// the code host's token is not set. `github_token` is what the environment
/// gave: the token, or the words of the failure.
pub fn create_modpack_release(
    config: &ModpackConfig,
    pack_file: &PackFile,
    version_info: &VersionInfo,
    changelog: &String,
    version_type: VersionType,
    github_token: &Result<String, String>,
) -> (out: Result<Request, PeonyError>)
    ensures
        match *github_token {
            Err(words) => fails_with(out, ErrorKind::GithubToken, words@),
            Ok(token) => out matches Ok(request) && request@ == (RequestView {
                method: Method::Post,
                url: releases_url_text(config.github.repo_owner@, config.github.repo_name@),
                headers: release_headers(token@),
                body: BodyView::Release(
                    modpack_release_body(*pack_file, *version_info, changelog@, version_type),
                ),
            }),
        },
{
    let token = match github_token {
        Ok(token) => token,
        Err(words) => return Err(PeonyError::new(ErrorKind::GithubToken, words.clone())),
    };
    let new_release_req_body = CreateReleaseRequest {
        tag_name: pack_file.version.clone(),
        name: Some(version_info.version_name.clone()),
        body: Some(changelog.clone()),
        prerelease: prerelease(version_type),
    };
    Ok(create_github_release(&config.github, new_release_req_body, token))
}

/// The address to which the file `file_name` of the release `release_id` is
/// sent. The name stands between double quotes.
pub open spec fn upload_url_text(
    owner: Seq<char>,
    repo: Seq<char>,
    release_id: int,
    file_name: Seq<char>,
) -> Seq<char> {
    "https://uploads.github.com/repos/"@ + owner + "/"@ + repo + "/releases/"@ + signed_decimal(
        release_id,
    ) + "/assets?name=\""@ + file_name + "\""@
}

/// The headers of a request that attaches a file of the media type
/// `content_type`.
pub open spec fn upload_headers(content_type: Seq<char>, token: Seq<char>) -> Seq<
    (Seq<char>, Seq<char>),
> {
    seq![
        ("User-Agent"@, user_agent_text()),
        ("Accept"@, "application/vnd.github+json"@),
        ("Content-Type"@, content_type),
        ("Authorization"@, bearer_text(token)),
    ]
}

/// The request that attaches a file to a release.
pub open spec fn upload_request(
    config: GithubConfig,
    release_id: int,
    file_name: Seq<char>,
    content_type: Seq<char>,
    token: Seq<char>,
    contents: Seq<u8>,
) -> RequestView {
    RequestView {
        method: Method::Post,
        url: upload_url_text(config.repo_owner@, config.repo_name@, release_id, file_name),
        headers: upload_headers(content_type, token),
        body: BodyView::Bytes(contents),
    }
}

/// Makes the request that attaches the file `file_name` with `contents` to
/// the release `release_id`.
pub fn upload_asset(
    config: &GithubConfig,
    release_id: i32,
    file_name: &str,
    content_type: &str,
    token: &str,
    contents: Vec<u8>,
) -> (out: Request)
    ensures
        out@ == upload_request(
            *config,
            release_id as int,
            file_name@,
            content_type@,
            token@,
            contents@,
        ),
{
    let id = signed_decimal_text(release_id as i64);
    let mut url = String::from_str("https://uploads.github.com/repos/");
    url.append(config.repo_owner.as_str());
    url.append("/");
    url.append(config.repo_name.as_str());
    url.append("/releases/");
    url.append(id.as_str());
    url.append("/assets?name=\"");
    url.append(file_name);
    url.append("\"");
    let mut headers: Vec<Header> = Vec::new();
    headers.push(header("User-Agent", "peony"));
    headers.push(header("Accept", "application/vnd.github+json"));
    headers.push(header("Content-Type", content_type));
    headers.push(bearer_auth(token));
    let out = Request { method: Method::Post, url, headers, body: Body::Bytes(contents) };
    assert(header_views(out.headers@) =~= upload_headers(content_type@, token@));
    out
}

/// The request that attaches the archive of a modpack to its release. It can
/// only be made of the code host's answer to the request that created the
/// release, whose number it uses.
pub fn upload_modpack_asset(
    config: &ModpackConfig,
    release: &ReleaseResponse,
    output_file_info: &OutputFileInfo,
    version_info: &VersionInfo,
    token: &str,
) -> (out: Request)
    ensures
        out@ == upload_request(
            config.github,
            release.id as int,
            output_file_info.file_name@,
            "application/zip"@,
            token@,
            version_info.file_contents@,
        ),
{
    upload_asset(
        &config.github,
        release.id,
        output_file_info.file_name.as_str(),
        "application/zip",
        token,
        version_info.file_contents.clone(),
    )
}

/// The release of a mod: tagged with the mod's version, titled with the
/// release name, and described by the changelog.
pub open spec fn mod_release_body(
    mod_info: ModInfo,
    changelog: Seq<char>,
    version_name: Seq<char>,
    version_type: VersionType,
) -> CreateReleaseRequestView {
    CreateReleaseRequestView {
        tag_name: mod_info.version@,
        name: Some(version_name),
        body: Some(changelog),
        prerelease: is_prerelease(version_type),
    }
}

/// The request that creates the release of a mod, or the failure that the
/// code host's token is not set. `github_token` is what the environment
/// gave: the token, or the words of the failure.
pub fn create_mod_release(
    config: &ModConfig,
    mod_info: &ModInfo,
    changelog: &String,
    version_name: &String,
    version_type: VersionType,
    github_token: &Result<String, String>,
) -> (out: Result<Request, PeonyError>)
    ensures
        match *github_token {
            Err(words) => fails_with(out, ErrorKind::GithubToken, words@),
            Ok(token) => out matches Ok(request) && request@ == (RequestView {
                method: Method::Post,
                url: releases_url_text(config.github.repo_owner@, config.github.repo_name@),
                headers: release_headers(token@),
                body: BodyView::Release(
                    mod_release_body(*mod_info, changelog@, version_name@, version_type),
                ),
            }),
        },
{
    let token = match github_token {
        Ok(token) => token,
        Err(words) => return Err(PeonyError::new(ErrorKind::GithubToken, words.clone())),
    };
    let new_release_req_body = CreateReleaseRequest {
        tag_name: mod_info.version.clone(),
        name: Some(version_name.clone()),
        body: Some(changelog.clone()),
        prerelease: prerelease(version_type),
    };
    Ok(create_github_release(&config.github, new_release_req_body, token))
}

/// The requests that attach the jars of a mod to its release: one for the
/// mod's jar, then one for the sources jar if the build left one and its
/// contents are given.
pub open spec fn jar_uploads(
    mod_jars: ModJars,
    github_config: GithubConfig,
    release_id: int,
    token: Seq<char>,
    mod_jar_contents: Seq<u8>,
    sources_jar_contents: Option<Seq<u8>>,
) -> Seq<RequestView> {
    let first = seq![
        upload_request(
            github_config,
            release_id,
            mod_jars.mod_jar.file_name@,
            "application/java-archive"@,
            token,
            mod_jar_contents,
        ),
    ];
    match (mod_jars.sources_jar, sources_jar_contents) {
        (Some(jar), Some(contents)) => first.push(
            upload_request(
                github_config,
                release_id,
                jar.file_name@,
                "application/java-archive"@,
                token,
                contents,
            ),
        ),
        _ => first,
    }
}

/// The requests of a list seen as plain values, in order.
pub open spec fn request_views(requests: Seq<Request>) -> Seq<RequestView> {
    Seq::new(requests.len(), |i: int| requests[i]@)
}

/// What reading the sources jar gave: its bytes, if the build left a sources
/// jar and it was read.
pub open spec fn sources_bytes(
    mod_jars: ModJars,
    sources_jar_contents: Option<Result<Vec<u8>, String>>,
) -> Option<Seq<u8>> {
    match (mod_jars.sources_jar, sources_jar_contents) {
        (Some(_), Some(Ok(bytes))) => Some(bytes@),
        _ => None,
    }
}

/// The requests that attach the jars of a mod to the release `release_id`,
/// in the order in which they are to be sent. Each contents argument is what
/// reading the jar gave: its bytes, or the words of the failure.
///
/// A jar that could not be read is a failure, the mod's jar before the
/// sources jar, and then nothing is to be sent.
pub fn upload_mod_jars(
    mod_jars: &ModJars,
    github_config: &GithubConfig,
    release_id: i32,
    token: String,
    mod_jar_contents: Result<Vec<u8>, String>,
    sources_jar_contents: Option<Result<Vec<u8>, String>>,
) -> (out: Result<Vec<Request>, PeonyError>)
    ensures
        match mod_jar_contents {
            Err(words) => fails_with(out, ErrorKind::ModJarRead, words@),
            Ok(mod_bytes) => match (mod_jars.sources_jar, sources_jar_contents) {
                (Some(_), Some(Err(words))) => fails_with(out, ErrorKind::SourcesJarRead, words@),
                _ => out matches Ok(requests) && request_views(requests@) == jar_uploads(
                    *mod_jars,
                    *github_config,
                    release_id as int,
                    token@,
                    mod_bytes@,
                    sources_bytes(*mod_jars, sources_jar_contents),
                ),
            },
        },
{
    let mod_bytes = match mod_jar_contents {
        Ok(bytes) => bytes,
        Err(words) => return Err(PeonyError::new(ErrorKind::ModJarRead, words)),
    };
    let ghost mod_view = mod_bytes@;
    let sources = match (&mod_jars.sources_jar, sources_jar_contents) {
        (Some(jar), Some(Ok(bytes))) => Some((jar, bytes)),
        (Some(_), Some(Err(words))) => {
            return Err(PeonyError::new(ErrorKind::SourcesJarRead, words));
        },
        _ => None,
    };
    let mut requests: Vec<Request> = Vec::new();
    requests.push(
        upload_asset(
            github_config,
            release_id,
            mod_jars.mod_jar.file_name.as_str(),
            "application/java-archive",
            token.as_str(),
            mod_bytes,
        ),
    );
    if let Some((jar, bytes)) = sources {
        requests.push(
            upload_asset(
                github_config,
                release_id,
                jar.file_name.as_str(),
                "application/java-archive",
                token.as_str(),
                bytes,
            ),
        );
    }
    assert(request_views(requests@) =~= jar_uploads(
        *mod_jars,
        *github_config,
        release_id as int,
        token@,
        mod_view,
        sources_bytes(*mod_jars, sources_jar_contents),
    ));
    Ok(requests)
}

/// What to make of the answer to a request that creates a release. `answer`
/// is the release that the code host described, or the words of the failure,
/// be it that the request could not be sent or that the answer described no
/// release. Such a failure is reported in its own words.
pub fn release_created(answer: Result<ReleaseResponse, String>) -> (out: Result<
    ReleaseResponse,
    PeonyError,
>)
    ensures
        match answer {
            Ok(release) => out == Ok::<ReleaseResponse, PeonyError>(release),
            Err(words) => fails_with(out, ErrorKind::GithubRelease, words@),
        },
{
    match answer {
        Ok(release) => Ok(release),
        Err(words) => Err(PeonyError::new(ErrorKind::GithubRelease, words)),
    }
}

/// What to make of the attempt to attach the archive of a modpack. `sent` is
/// the status of the code host's answer, or the words of the failure to send
/// the request. Every answer counts as success, whatever its status; a
/// request that could not be sent is a failure, reported in its own words.
pub fn modpack_asset_uploaded(sent: Result<u16, String>) -> (out: Result<(), PeonyError>)
    ensures
        match sent {
            Ok(_) => out is Ok,
            Err(words) => fails_with(out, ErrorKind::GithubAsset, words@),
        },
{
    match sent {
        Ok(_) => Ok(()),
        Err(words) => Err(PeonyError::new(ErrorKind::GithubAsset, words)),
    }
}

/// What completes the sentence of a failed upload: the file's name, a
/// backquote, a colon, and the words of the failure.
pub open spec fn upload_failure_detail(file_name: Seq<char>, words: Seq<char>) -> Seq<char> {
    file_name + "`: "@ + words
}

/// What to make of the attempt to attach the jar `file_name`. `sent` is the
/// status of the code host's answer, or the words of the failure to send the
/// request. Every answer counts as success, whatever its status; a request
/// that could not be sent is a failure that names the jar.
pub fn jar_uploaded(file_name: &str, sent: Result<u16, String>) -> (out: Result<(), PeonyError>)
    ensures
        match sent {
            Ok(_) => out is Ok,
            Err(words) => fails_with(
                out,
                ErrorKind::GithubAssetUpload,
                upload_failure_detail(file_name@, words@),
            ),
        },
{
    match sent {
        Ok(_) => Ok(()),
        Err(words) => {
            let mut detail = String::from_str(file_name);
            detail.append("`: ");
            detail.append(words.as_str());
            Err(PeonyError::new(ErrorKind::GithubAssetUpload, detail))
        },
    }
}

} // verus!
