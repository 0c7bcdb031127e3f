//! The failures of a run, one kind for each cause.

use vstd::prelude::*;
use crate::text::join3;

verus! {

/// What went wrong. Each kind has a fixed sentence; most are completed by a
/// detail, such as the words of the operating system or of a remote service.
#[derive(Debug, Clone, Copy, PartialEq, Eq, Structural)]
pub enum ErrorKind {
    /// The packwiz executable is not on the search path.
    PackwizNotFound,
    /// The Java executable is not on the search path.
    JavaNotFound,
    /// The Gradle wrapper script is not in the project directory.
    GradleScriptMissing,
    /// The modpack run configuration is not in the project directory.
    ModpackConfigMissing,
    /// The mod run configuration is not in the project directory.
    ModConfigMissing,
    /// The run configuration could not be read.
    ConfigRead,
    /// The run configuration is malformed.
    ConfigParse,
    /// The pack manifest could not be read.
    PackFileRead,
    /// The pack manifest is malformed.
    PackFileParse,
    /// The pack manifest with the new version could not be written as TOML.
    PackFileSerialize,
    /// The pack manifest with the new version could not be stored.
    PackFileWrite,
    /// The project directory is unknown.
    CurrentDir,
    /// The workspace directory could not be created.
    TempDirCreate,
    /// The project could not be copied into the workspace.
    TempDirCopy,
    /// The workspace could not be removed.
    TempDirRemove,
    /// packwiz could not be run.
    PackwizExport,
    /// Gradle could not be run.
    GradleBuild,
    /// The search pattern for the modpack archive is not text.
    ModpackGlobPattern,
    /// The search pattern for the modpack archive was refused.
    ModpackGlob,
    /// The first match of the modpack search could not be read.
    ModpackPath,
    /// The build left no modpack archive.
    ModpackMissing,
    /// The modpack archive's path has no file name.
    ModpackFileName,
    /// The modpack archive could not be read.
    ModpackRead,
    /// A file name is not text.
    FileNameEncoding,
    /// A path has no file name.
    FileName,
    /// A file could not be read.
    FileRead,
    /// The search pattern for the jars is not text.
    JarGlobPattern,
    /// The search pattern for the jars was refused.
    JarGlob,
    /// A match of the jar search could not be read.
    JarGlobEntry,
    /// A jar's file name is not text.
    JarFileNameEncoding,
    /// A jar's path has no file name.
    JarFileName,
    /// The build did not leave exactly one mod jar; the detail is the number found.
    ModJarCount,
    /// The build left more than one sources jar; the detail is the number found.
    SourcesJarCount,
    /// The mod jar could not be opened; the detail is the whole message.
    JarOpen,
    /// The Fabric metadata file could not be taken from the jar.
    FabricMetadata,
    /// The Quilt metadata file could not be taken from the jar.
    QuiltMetadata,
    /// The jar holds neither loader's metadata file.
    MetadataMissing,
    /// The metadata file could not be read; the detail is the whole message.
    MetadataRead,
    /// The metadata file is not JSON; the detail is the whole message.
    MetadataParse,
    /// The pack manifest declares no loader.
    LoaderMissing,
    /// git printed something that is not text.
    GitOutput,
    /// git could not be run.
    FirstCommit,
    /// The code host's access token is not set.
    GithubToken,
    /// The code host did not create the release; the detail is the whole message.
    GithubRelease,
    /// The modpack archive could not be sent to the code host; the detail is the whole message.
    GithubAsset,
    /// The mod jar could not be read.
    ModJarRead,
    /// The sources jar could not be read.
    SourcesJarRead,
    /// A jar could not be sent to the code host; the detail names the jar and the cause.
    GithubAssetUpload,
    /// The mod platform's access token is not set.
    ModrinthToken,
    /// The mod platform's access token is not set.
    ModrinthTokenEnv,
    /// The modpack archive could not be made a part of the upload.
    ModpackPart,
    /// The upload form for a mod could not be made.
    ModForm,
    /// The version request could not be written as JSON.
    VersionSerialize,
    /// The modpack version could not be sent to the mod platform.
    ModpackUpload,
    /// The mod version could not be sent to the mod platform.
    ModUpload,
    /// The mod platform refused the version; the detail is the response body.
    ModrinthRejected,
    /// An announcement was asked for, but the configuration has no announcer section.
    DiscordConfigMissing,
    /// The mod platform's access token is not set when the announcer needs it.
    DiscordModrinthToken,
    /// The mod platform's project could not be asked for.
    ProjectFetch,
    /// The mod platform's answer is no project.
    ProjectParse,
    /// The webhook's address is not set.
    WebhookUrl,
    /// The webhook could not be looked up; the detail is the whole message.
    WebhookLookup,
    /// The announcement could not be delivered.
    WebhookSend,
}

impl ErrorKind {
    /// The words that stand before the detail.
    pub open spec fn prefix_text(self) -> Seq<char> {
        match self {
            ErrorKind::PackwizNotFound => "Failed to find packwiz executable: "@,
            ErrorKind::JavaNotFound => "Failed to find Java executable: "@,
            ErrorKind::GradleScriptMissing => "Failed to find gradle script at `"@,
            ErrorKind::ModpackConfigMissing => "Failed to find `mrpack.toml` file."@,
            ErrorKind::ModConfigMissing => "Failed to find `peony_mod.toml` file"@,
            ErrorKind::ConfigRead => "Failed to read config file: "@,
            ErrorKind::ConfigParse => "Failed to parse config file: "@,
            ErrorKind::PackFileRead => "Failed to read pack.toml file: "@,
            ErrorKind::PackFileParse => "Failed to parse pack.toml file: "@,
            ErrorKind::PackFileSerialize => "Failed to parse new pack data to toml: "@,
            ErrorKind::PackFileWrite => "Failed to write new pack.toml data: "@,
            ErrorKind::CurrentDir => "Failed to get current directory: "@,
            ErrorKind::TempDirCreate => "Failed to create temporary directory: "@,
            ErrorKind::TempDirCopy => "Failed to copy files to temporary directory: "@,
            ErrorKind::TempDirRemove => "Failed to remove temporary directory: "@,
            ErrorKind::PackwizExport => "Failed to export with packwiz: "@,
            ErrorKind::GradleBuild => "Failed to build with Gradle: "@,
            ErrorKind::ModpackGlobPattern => "Failed to parse modpack glob to string."@,
            ErrorKind::ModpackGlob => "Failed to get paths with glob pattern: "@,
            ErrorKind::ModpackPath => "Failed to parse modpack file path: "@,
            ErrorKind::ModpackMissing => "Failed to get modpack file path"@,
            ErrorKind::ModpackFileName => "Failed to get mrpack file name"@,
            ErrorKind::ModpackRead => "Failed to read .mrpack file: "@,
            ErrorKind::FileNameEncoding => "Failed to parse file name from OsString to &str"@,
            ErrorKind::FileName => "Failed to get file name from path: "@,
            ErrorKind::FileRead => "Failed to read file: "@,
            ErrorKind::JarGlobPattern => "Failed to parse glob to string"@,
            ErrorKind::JarGlob => "Failed to find files with mod glob: "@,
            ErrorKind::JarGlobEntry => "Failed to parse jar glob result as path: "@,
            ErrorKind::JarFileNameEncoding => "Failed to parse file name from OsString to String"@,
            ErrorKind::JarFileName => "Failed to parse file name from jar path"@,
            ErrorKind::ModJarCount => "Found an invalid amount of mod jars: "@,
            ErrorKind::SourcesJarCount => "Found an invalid amount of sources jars: "@,
            ErrorKind::JarOpen => ""@,
            ErrorKind::FabricMetadata => "Failed to get `fabric.mod.json` file from jar: "@,
            ErrorKind::QuiltMetadata => "Failed to get `quilt.mod.json` file from jar: "@,
            ErrorKind::MetadataMissing => "Failed to get `fabric.mod.json` or `quilt.mod.json` from jar"@,
            ErrorKind::MetadataRead => ""@,
            ErrorKind::MetadataParse => ""@,
            ErrorKind::LoaderMissing => "Failed to parse loader name"@,
            ErrorKind::GitOutput => "Failed to parse git output: "@,
            ErrorKind::FirstCommit => "Failed to get first commit: "@,
            ErrorKind::GithubToken => "Failed to get `GITHUB_TOKEN`: "@,
            ErrorKind::GithubRelease => ""@,
            ErrorKind::GithubAsset => ""@,
            ErrorKind::ModJarRead => "Failed to read mod jar: "@,
            ErrorKind::SourcesJarRead => "Failed to read sources jar, even though it exists: "@,
            ErrorKind::GithubAssetUpload => "Failed to upload GitHub release asset `"@,
            ErrorKind::ModrinthToken => "Failed to get `MODRINTH_TOKEN`: "@,
            ErrorKind::ModrinthTokenEnv => "Failed to get Modrinth token from environment: "@,
            ErrorKind::ModpackPart => "Failed to get part from .mrpack file: "@,
            ErrorKind::ModForm => "Failed to create mod form: "@,
            ErrorKind::VersionSerialize => "Failed to serialize version request body: "@,
            ErrorKind::ModpackUpload => "Error uploading version: "@,
            ErrorKind::ModUpload => "Error uploading mod version: "@,
            ErrorKind::ModrinthRejected => "Failed to upload version to Modrinth: "@,
            ErrorKind::DiscordConfigMissing => "Failed to get Discord config"@,
            ErrorKind::DiscordModrinthToken => "Failed to get `MODRINTH_TOKEN` from environment: "@,
            ErrorKind::ProjectFetch => "Error getting project from project id: "@,
            ErrorKind::ProjectParse => "Error parsing response from get project: "@,
            ErrorKind::WebhookUrl => "Failed to get webhook url: "@,
            ErrorKind::WebhookLookup => ""@,
            ErrorKind::WebhookSend => "Failed to send Discord webhook: "@,
        }
    }

    /// The words that stand behind the detail.
    pub open spec fn suffix_text(self) -> Seq<char> {
        match self {
            ErrorKind::GradleScriptMissing => "`"@,
            ErrorKind::ProjectParse => "\nMake sure your Modrinth token can read projects!"@,
            _ => ""@,
        }
    }

    /// The words that stand before the detail.
    pub fn prefix(&self) -> (out: &'static str)
        ensures
            out@ == self.prefix_text(),
    {
        match self {
            ErrorKind::PackwizNotFound => "Failed to find packwiz executable: ",
            ErrorKind::JavaNotFound => "Failed to find Java executable: ",
            ErrorKind::GradleScriptMissing => "Failed to find gradle script at `",
            ErrorKind::ModpackConfigMissing => "Failed to find `mrpack.toml` file.",
            ErrorKind::ModConfigMissing => "Failed to find `peony_mod.toml` file",
            ErrorKind::ConfigRead => "Failed to read config file: ",
            ErrorKind::ConfigParse => "Failed to parse config file: ",
            ErrorKind::PackFileRead => "Failed to read pack.toml file: ",
            ErrorKind::PackFileParse => "Failed to parse pack.toml file: ",
            ErrorKind::PackFileSerialize => "Failed to parse new pack data to toml: ",
            ErrorKind::PackFileWrite => "Failed to write new pack.toml data: ",
            ErrorKind::CurrentDir => "Failed to get current directory: ",
            ErrorKind::TempDirCreate => "Failed to create temporary directory: ",
            ErrorKind::TempDirCopy => "Failed to copy files to temporary directory: ",
            ErrorKind::TempDirRemove => "Failed to remove temporary directory: ",
            ErrorKind::PackwizExport => "Failed to export with packwiz: ",
            ErrorKind::GradleBuild => "Failed to build with Gradle: ",
            ErrorKind::ModpackGlobPattern => "Failed to parse modpack glob to string.",
            ErrorKind::ModpackGlob => "Failed to get paths with glob pattern: ",
            ErrorKind::ModpackPath => "Failed to parse modpack file path: ",
            ErrorKind::ModpackMissing => "Failed to get modpack file path",
            ErrorKind::ModpackFileName => "Failed to get mrpack file name",
            ErrorKind::ModpackRead => "Failed to read .mrpack file: ",
            ErrorKind::FileNameEncoding => "Failed to parse file name from OsString to &str",
            ErrorKind::FileName => "Failed to get file name from path: ",
            ErrorKind::FileRead => "Failed to read file: ",
            ErrorKind::JarGlobPattern => "Failed to parse glob to string",
            ErrorKind::JarGlob => "Failed to find files with mod glob: ",
            ErrorKind::JarGlobEntry => "Failed to parse jar glob result as path: ",
            ErrorKind::JarFileNameEncoding => "Failed to parse file name from OsString to String",
            ErrorKind::JarFileName => "Failed to parse file name from jar path",
            ErrorKind::ModJarCount => "Found an invalid amount of mod jars: ",
            ErrorKind::SourcesJarCount => "Found an invalid amount of sources jars: ",
            ErrorKind::JarOpen => "",
            ErrorKind::FabricMetadata => "Failed to get `fabric.mod.json` file from jar: ",
            ErrorKind::QuiltMetadata => "Failed to get `quilt.mod.json` file from jar: ",
            ErrorKind::MetadataMissing => "Failed to get `fabric.mod.json` or `quilt.mod.json` from jar",
            ErrorKind::MetadataRead => "",
            ErrorKind::MetadataParse => "",
            ErrorKind::LoaderMissing => "Failed to parse loader name",
            ErrorKind::GitOutput => "Failed to parse git output: ",
            ErrorKind::FirstCommit => "Failed to get first commit: ",
            ErrorKind::GithubToken => "Failed to get `GITHUB_TOKEN`: ",
            ErrorKind::GithubRelease => "",
            ErrorKind::GithubAsset => "",
            ErrorKind::ModJarRead => "Failed to read mod jar: ",
            ErrorKind::SourcesJarRead => "Failed to read sources jar, even though it exists: ",
            ErrorKind::GithubAssetUpload => "Failed to upload GitHub release asset `",
            ErrorKind::ModrinthToken => "Failed to get `MODRINTH_TOKEN`: ",
            ErrorKind::ModrinthTokenEnv => "Failed to get Modrinth token from environment: ",
            ErrorKind::ModpackPart => "Failed to get part from .mrpack file: ",
            ErrorKind::ModForm => "Failed to create mod form: ",
            ErrorKind::VersionSerialize => "Failed to serialize version request body: ",
            ErrorKind::ModpackUpload => "Error uploading version: ",
            ErrorKind::ModUpload => "Error uploading mod version: ",
            ErrorKind::ModrinthRejected => "Failed to upload version to Modrinth: ",
            ErrorKind::DiscordConfigMissing => "Failed to get Discord config",
            ErrorKind::DiscordModrinthToken => "Failed to get `MODRINTH_TOKEN` from environment: ",
            ErrorKind::ProjectFetch => "Error getting project from project id: ",
            ErrorKind::ProjectParse => "Error parsing response from get project: ",
            ErrorKind::WebhookUrl => "Failed to get webhook url: ",
            ErrorKind::WebhookLookup => "",
            ErrorKind::WebhookSend => "Failed to send Discord webhook: ",
        }
    }

    /// The words that stand behind the detail.
    pub fn suffix(&self) -> (out: &'static str)
        ensures
            out@ == self.suffix_text(),
    {
        match self {
            ErrorKind::GradleScriptMissing => "`",
            ErrorKind::ProjectParse => "\nMake sure your Modrinth token can read projects!",
            _ => "",
        }
    }
}

/// A failure of a run: its kind and the detail that completes the sentence.
/// For a kind whose sentence is complete by itself the detail is empty.
#[derive(Debug, Clone, PartialEq, Eq)]
pub struct PeonyError {
    pub kind: ErrorKind,
    pub detail: String,
}

impl View for PeonyError {
    type V = (ErrorKind, Seq<char>);

    open spec fn view(&self) -> (ErrorKind, Seq<char>) {
        (self.kind, self.detail@)
    }
}

/// The sentence that reports a failure of `kind` with `detail`.
pub open spec fn message_text(kind: ErrorKind, detail: Seq<char>) -> Seq<char> {
    kind.prefix_text() + detail + kind.suffix_text()
}

/// `result` is the failure of `kind` with `detail`.
pub open spec fn fails_with<T>(result: Result<T, PeonyError>, kind: ErrorKind, detail: Seq<char>) -> bool {
    result matches Err(e) && e@ == (kind, detail)
}

impl PeonyError {
    /// The failure of `kind` with `detail`.
    pub fn new(kind: ErrorKind, detail: String) -> (out: PeonyError)
        ensures
            out@ == (kind, detail@),
    {
        PeonyError { kind, detail }
    }

    /// The failure of `kind` with no detail.
    pub fn plain(kind: ErrorKind) -> (out: PeonyError)
        ensures
            out@ == (kind, Seq::<char>::empty()),
    {
        PeonyError { kind, detail: String::new() }
    }

    /// The sentence that reports this failure.
    pub fn message(&self) -> (out: String)
        ensures
            out@ == message_text(self.kind, self.detail@),
    {
        join3(self.kind.prefix(), self.detail.as_str(), self.kind.suffix())
    }
}

} // verus!
