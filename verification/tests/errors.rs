use peony::error::{ErrorKind, PeonyError};

#[test]
fn every_kind_has_its_sentence() {
    let cases = [
        (ErrorKind::PackwizNotFound, "Failed to find packwiz executable: DETAIL"),
        (ErrorKind::JavaNotFound, "Failed to find Java executable: DETAIL"),
        (ErrorKind::GradleScriptMissing, "Failed to find gradle script at `DETAIL`"),
        (ErrorKind::ModpackConfigMissing, "Failed to find `mrpack.toml` file.DETAIL"),
        (ErrorKind::ModConfigMissing, "Failed to find `peony_mod.toml` fileDETAIL"),
        (ErrorKind::ConfigRead, "Failed to read config file: DETAIL"),
        (ErrorKind::ConfigParse, "Failed to parse config file: DETAIL"),
        (ErrorKind::PackFileRead, "Failed to read pack.toml file: DETAIL"),
        (ErrorKind::PackFileParse, "Failed to parse pack.toml file: DETAIL"),
        (ErrorKind::PackFileSerialize, "Failed to parse new pack data to toml: DETAIL"),
        (ErrorKind::PackFileWrite, "Failed to write new pack.toml data: DETAIL"),
        (ErrorKind::CurrentDir, "Failed to get current directory: DETAIL"),
        (ErrorKind::TempDirCreate, "Failed to create temporary directory: DETAIL"),
        (ErrorKind::TempDirCopy, "Failed to copy files to temporary directory: DETAIL"),
        (ErrorKind::TempDirRemove, "Failed to remove temporary directory: DETAIL"),
        (ErrorKind::PackwizExport, "Failed to export with packwiz: DETAIL"),
        (ErrorKind::GradleBuild, "Failed to build with Gradle: DETAIL"),
        (ErrorKind::ModpackGlobPattern, "Failed to parse modpack glob to string.DETAIL"),
        (ErrorKind::ModpackGlob, "Failed to get paths with glob pattern: DETAIL"),
        (ErrorKind::ModpackPath, "Failed to parse modpack file path: DETAIL"),
        (ErrorKind::ModpackMissing, "Failed to get modpack file pathDETAIL"),
        (ErrorKind::ModpackFileName, "Failed to get mrpack file nameDETAIL"),
        (ErrorKind::ModpackRead, "Failed to read .mrpack file: DETAIL"),
        (ErrorKind::FileNameEncoding, "Failed to parse file name from OsString to &strDETAIL"),
        (ErrorKind::FileName, "Failed to get file name from path: DETAIL"),
        (ErrorKind::FileRead, "Failed to read file: DETAIL"),
        (ErrorKind::JarGlobPattern, "Failed to parse glob to stringDETAIL"),
        (ErrorKind::JarGlob, "Failed to find files with mod glob: DETAIL"),
        (ErrorKind::JarGlobEntry, "Failed to parse jar glob result as path: DETAIL"),
        (ErrorKind::JarFileNameEncoding, "Failed to parse file name from OsString to StringDETAIL"),
        (ErrorKind::JarFileName, "Failed to parse file name from jar pathDETAIL"),
        (ErrorKind::ModJarCount, "Found an invalid amount of mod jars: DETAIL"),
        (ErrorKind::SourcesJarCount, "Found an invalid amount of sources jars: DETAIL"),
        (ErrorKind::JarOpen, "DETAIL"),
        (ErrorKind::FabricMetadata, "Failed to get `fabric.mod.json` file from jar: DETAIL"),
        (ErrorKind::QuiltMetadata, "Failed to get `quilt.mod.json` file from jar: DETAIL"),
        (ErrorKind::MetadataMissing, "Failed to get `fabric.mod.json` or `quilt.mod.json` from jarDETAIL"),
        (ErrorKind::MetadataRead, "DETAIL"),
        (ErrorKind::MetadataParse, "DETAIL"),
        (ErrorKind::LoaderMissing, "Failed to parse loader nameDETAIL"),
        (ErrorKind::GitOutput, "Failed to parse git output: DETAIL"),
        (ErrorKind::FirstCommit, "Failed to get first commit: DETAIL"),
        (ErrorKind::GithubToken, "Failed to get `GITHUB_TOKEN`: DETAIL"),
        (ErrorKind::GithubRelease, "DETAIL"),
        (ErrorKind::GithubAsset, "DETAIL"),
        (ErrorKind::ModJarRead, "Failed to read mod jar: DETAIL"),
        (ErrorKind::SourcesJarRead, "Failed to read sources jar, even though it exists: DETAIL"),
        (ErrorKind::GithubAssetUpload, "Failed to upload GitHub release asset `DETAIL"),
        (ErrorKind::ModrinthToken, "Failed to get `MODRINTH_TOKEN`: DETAIL"),
        (ErrorKind::ModrinthTokenEnv, "Failed to get Modrinth token from environment: DETAIL"),
        (ErrorKind::ModpackPart, "Failed to get part from .mrpack file: DETAIL"),
        (ErrorKind::ModForm, "Failed to create mod form: DETAIL"),
        (ErrorKind::VersionSerialize, "Failed to serialize version request body: DETAIL"),
        (ErrorKind::ModpackUpload, "Error uploading version: DETAIL"),
        (ErrorKind::ModUpload, "Error uploading mod version: DETAIL"),
        (ErrorKind::ModrinthRejected, "Failed to upload version to Modrinth: DETAIL"),
        (ErrorKind::DiscordConfigMissing, "Failed to get Discord configDETAIL"),
        (ErrorKind::DiscordModrinthToken, "Failed to get `MODRINTH_TOKEN` from environment: DETAIL"),
        (ErrorKind::ProjectFetch, "Error getting project from project id: DETAIL"),
        (ErrorKind::ProjectParse, "Error parsing response from get project: DETAIL\nMake sure your Modrinth token can read projects!"),
        (ErrorKind::WebhookUrl, "Failed to get webhook url: DETAIL"),
        (ErrorKind::WebhookLookup, "DETAIL"),
        (ErrorKind::WebhookSend, "Failed to send Discord webhook: DETAIL"),
    ];
    for (kind, sentence) in cases {
        let error = PeonyError::new(kind, "DETAIL".to_string());
        assert_eq!(error.kind, kind);
        assert_eq!(error.detail, "DETAIL");
        assert_eq!(error.message(), sentence);
        assert_eq!(format!("{}{}{}", kind.prefix(), "DETAIL", kind.suffix()), sentence);
    }
    assert_eq!(cases.len(), 63);
}

#[test]
fn plain_failure_has_no_detail() {
    let error = PeonyError::plain(ErrorKind::LoaderMissing);
    assert_eq!(error.detail, "");
    assert_eq!(error.message(), "Failed to parse loader name");
    assert_eq!(
        PeonyError::plain(ErrorKind::ModpackConfigMissing).message(),
        "Failed to find `mrpack.toml` file."
    );
}

#[test]
fn detail_stands_between_the_words_of_the_kind() {
    let script = PeonyError::new(ErrorKind::GradleScriptMissing, "\"./gradlew\"".to_string());
    assert_eq!(script.message(), "Failed to find gradle script at `\"./gradlew\"`");
    let project = PeonyError::new(ErrorKind::ProjectParse, "missing field `slug`".to_string());
    assert_eq!(
        project.message(),
        "Error parsing response from get project: missing field `slug`\n\
         Make sure your Modrinth token can read projects!"
    );
}

#[test]
fn failures_that_carry_foreign_words_add_none_of_their_own() {
    for kind in [
        ErrorKind::JarOpen,
        ErrorKind::MetadataRead,
        ErrorKind::MetadataParse,
        ErrorKind::GithubRelease,
        ErrorKind::GithubAsset,
        ErrorKind::WebhookLookup,
    ] {
        assert_eq!(PeonyError::new(kind, "the words".to_string()).message(), "the words");
    }
}
