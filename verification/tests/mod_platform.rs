use peony::error::ErrorKind;
use peony::http::{Body, Header, Method};
use peony::models::modrinth::version::{
    VersionDependency, VersionRequest, VersionStatus, VersionType,
};
use peony::models::modrinth::{DependencyType, Loader, ModrinthUrl};
use peony::models::project_type::mc_mod::config::modrinth::{ModrinthConfig, ModrinthDependency};
use peony::models::project_type::mc_mod::config::ModConfig;
use peony::models::project_type::mc_mod::version::{ModFile, ModVersionInfo};
use peony::models::project_type::modpack::config::ModpackConfig;
use peony::models::project_type::modpack::{PackFile, PackFileIndex, PackFileVersions};
use peony::models::util::OutputFileInfo;
use peony::models::version::VersionInfo;
use peony::models::GithubConfig;
use peony::modrinth::{
    create_mod_form, create_mod_release, create_modpack_release, upload_result, FilePart, FileType,
};

fn repo() -> GithubConfig {
    GithubConfig { repo_owner: "octo".to_string(), repo_name: "pack".to_string() }
}

fn mod_files(with_sources: bool) -> ModVersionInfo {
    ModVersionInfo {
        name: "My Mod 1.0.0".to_string(),
        version: "1.0.0".to_string(),
        loaders: vec![Loader::Fabric],
        mod_file: ModFile { name: "m.jar".to_string(), contents: vec![1, 2] },
        sources_file: if with_sources {
            Some(ModFile { name: "m-sources.jar".to_string(), contents: vec![3] })
        } else {
            None
        },
    }
}

fn request_data() -> VersionRequest {
    VersionRequest {
        name: "n".to_string(),
        version_number: "1".to_string(),
        changelog: None,
        dependencies: vec![],
        game_versions: vec![],
        version_type: VersionType::Release,
        loaders: vec![],
        featured: false,
        requested_status: VersionStatus::Listed,
        project_id: "p".to_string(),
        file_parts: vec![],
        primary_file: "mod_jar".to_string(),
    }
}

fn jar_part(name: &str, contents: Vec<u8>) -> FilePart {
    FilePart {
        contents,
        file_name: name.to_string(),
        mime: "application/java-archive".to_string(),
    }
}

#[test]
fn part_names_follow_the_kind_of_jar() {
    assert_eq!(FileType::Mod.part_name(), "mod_jar");
    assert_eq!(FileType::Sources.part_name(), "sources_jar");
}

#[test]
fn mod_form_holds_the_mod_jar() {
    let form = create_mod_form(&mod_files(false), request_data());
    assert_eq!(form.data, request_data());
    assert_eq!(form.parts, vec![jar_part("m.jar", vec![1, 2])]);
    assert_eq!(form.part_names, vec!["mod_jar".to_string()]);
}

#[test]
fn mod_form_holds_the_sources_jar_behind_the_mod_jar() {
    let form = create_mod_form(&mod_files(true), request_data());
    assert_eq!(
        form.parts,
        vec![jar_part("m.jar", vec![1, 2]), jar_part("m-sources.jar", vec![3])]
    );
    assert_eq!(form.part_names, vec!["mod_jar".to_string(), "sources_jar".to_string()]);
}

fn mod_config(dependencies: Option<Vec<ModrinthDependency>>) -> ModConfig {
    ModConfig {
        config_format_version: 1,
        version_name_format: "%project_name%".to_string(),
        loaders: vec![Loader::Quilt, Loader::Fabric],
        mc_versions: vec!["1.20".to_string(), "1.20.1".to_string()],
        mc_version_alias: "1.20.x".to_string(),
        version_alias: None,
        github: repo(),
        modrinth: ModrinthConfig { project_id: "abc123".to_string(), staging: None, dependencies },
        discord: None,
    }
}

#[test]
fn mod_version_is_posted_with_its_jars() {
    let request = create_mod_release(
        &mod_config(None),
        &mod_files(true),
        &"log".to_string(),
        &ModrinthUrl::new(&None),
        &"My Mod 1.0.0".to_string(),
        VersionType::Beta,
        &Ok("mrp_token".to_string()),
    )
    .unwrap();
    assert_eq!(request.method, Method::Post);
    assert_eq!(request.url, "https://api.modrinth.com/v2/version");
    assert_eq!(
        request.headers,
        vec![Header { name: "Authorization".to_string(), value: "mrp_token".to_string() }]
    );
    let form = match request.body {
        Body::Form(form) => form,
        _ => panic!("a form was expected"),
    };
    assert_eq!(
        form.data,
        VersionRequest {
            name: "My Mod 1.0.0".to_string(),
            version_number: "1.0.0".to_string(),
            changelog: Some("log".to_string()),
            dependencies: vec![],
            game_versions: vec!["1.20".to_string(), "1.20.1".to_string()],
            version_type: VersionType::Beta,
            loaders: vec![Loader::Quilt, Loader::Fabric],
            featured: false,
            requested_status: VersionStatus::Listed,
            project_id: "abc123".to_string(),
            file_parts: vec!["mod_jar".to_string(), "sources_jar".to_string()],
            primary_file: "mod_jar".to_string(),
        }
    );
    assert_eq!(
        form.parts,
        vec![jar_part("m.jar", vec![1, 2]), jar_part("m-sources.jar", vec![3])]
    );
    assert_eq!(form.part_names, vec!["mod_jar".to_string(), "sources_jar".to_string()]);
}

#[test]
fn configured_dependencies_are_sent_without_file_names() {
    let dependencies = vec![
        ModrinthDependency {
            version_id: None,
            project_id: Some("P7dR8mSH".to_string()),
            dependency_type: DependencyType::Required,
        },
        ModrinthDependency {
            version_id: Some("v1".to_string()),
            project_id: None,
            dependency_type: DependencyType::Optional,
        },
    ];
    let request = create_mod_release(
        &mod_config(Some(dependencies)),
        &mod_files(false),
        &String::new(),
        &ModrinthUrl::new(&Some(false)),
        &String::new(),
        VersionType::Release,
        &Ok("t".to_string()),
    )
    .unwrap();
    let form = match request.body {
        Body::Form(form) => form,
        _ => panic!("a form was expected"),
    };
    assert_eq!(
        form.data.dependencies,
        vec![
            VersionDependency {
                version_id: None,
                project_id: Some("P7dR8mSH".to_string()),
                file_name: None,
                dependency_type: DependencyType::Required,
            },
            VersionDependency {
                version_id: Some("v1".to_string()),
                project_id: None,
                file_name: None,
                dependency_type: DependencyType::Optional,
            },
        ]
    );
    assert_eq!(form.data.file_parts, vec!["mod_jar".to_string()]);
}

#[test]
fn dependencies_convert_both_ways() {
    let configured = ModrinthDependency {
        version_id: Some("v".to_string()),
        project_id: Some("p".to_string()),
        dependency_type: DependencyType::Embedded,
    };
    let sent = VersionDependency::from(configured.clone());
    assert_eq!(
        sent,
        VersionDependency {
            version_id: Some("v".to_string()),
            project_id: Some("p".to_string()),
            file_name: None,
            dependency_type: DependencyType::Embedded,
        }
    );
    let with_file = VersionDependency { file_name: Some("f.jar".to_string()), ..sent };
    assert_eq!(ModrinthDependency::from(with_file), configured);
}

#[test]
fn missing_mod_platform_token_is_a_failure() {
    let error = create_mod_release(
        &mod_config(None),
        &mod_files(false),
        &String::new(),
        &ModrinthUrl::new(&None),
        &String::new(),
        VersionType::Release,
        &Err("not present".to_string()),
    )
    .unwrap_err();
    assert_eq!(error.kind, ErrorKind::ModrinthTokenEnv);
    assert_eq!(error.message(), "Failed to get Modrinth token from environment: not present");
}

#[test]
fn modpack_version_is_posted_with_its_archive() {
    let config = ModpackConfig {
        config_format_version: 1,
        version_name_format: "%project_name%".to_string(),
        github: repo(),
        modrinth: peony::models::ModrinthConfig {
            project_id: "abc123".to_string(),
            staging: Some(true),
        },
        discord: None,
    };
    let pack = PackFile {
        name: "MyPack".to_string(),
        author: None,
        description: None,
        version: "1.2.0".to_string(),
        pack_format: "packwiz:1.1.0".to_string(),
        index: PackFileIndex {
            file: "index.toml".to_string(),
            hash_format: "sha256".to_string(),
            hash: "00".to_string(),
        },
        versions: PackFileVersions {
            minecraft: "1.20.1".to_string(),
            quilt: None,
            fabric: Some("0.90.0".to_string()),
            forge: None,
            liteloader: None,
        },
        options: None,
    };
    let output = OutputFileInfo {
        file_name: "MyPack-1.2.0.mrpack".to_string(),
        file_path: "/tmp/w/MyPack-1.2.0.mrpack".to_string(),
    };
    let info = VersionInfo {
        loader: Loader::Fabric,
        version_name: "MyPack 1.2.0 (Fabric)".to_string(),
        file_contents: vec![80, 75],
    };
    let request = create_modpack_release(
        &config,
        &pack,
        &output,
        &info,
        &"log".to_string(),
        "mrp_token".to_string(),
        &ModrinthUrl::new(&config.modrinth.staging),
        VersionType::Alpha,
    );
    assert_eq!(request.method, Method::Post);
    assert_eq!(request.url, "https://staging-api.modrinth.com/v2/version");
    assert_eq!(
        request.headers,
        vec![Header { name: "Authorization".to_string(), value: "mrp_token".to_string() }]
    );
    let form = match request.body {
        Body::Form(form) => form,
        _ => panic!("a form was expected"),
    };
    assert_eq!(
        form.data,
        VersionRequest {
            name: "MyPack 1.2.0 (Fabric)".to_string(),
            version_number: "1.2.0".to_string(),
            changelog: Some("log".to_string()),
            dependencies: vec![],
            game_versions: vec!["1.20.1".to_string()],
            version_type: VersionType::Alpha,
            loaders: vec![Loader::Fabric],
            featured: false,
            requested_status: VersionStatus::Listed,
            project_id: "abc123".to_string(),
            file_parts: vec!["file".to_string()],
            primary_file: "MyPack-1.2.0.mrpack".to_string(),
        }
    );
    assert_eq!(
        form.parts,
        vec![FilePart {
            contents: vec![80, 75],
            file_name: "MyPack-1.2.0.mrpack".to_string(),
            mime: "application/zip".to_string(),
        }]
    );
    assert_eq!(form.part_names, vec!["file".to_string()]);
}

#[test]
fn platform_addresses_depend_on_staging() {
    let live = ModrinthUrl::new(&None);
    assert_eq!(live.labrinth, "https://api.modrinth.com/v2");
    assert_eq!(live.knossos, "https://modrinth.com");
    assert_eq!(ModrinthUrl::new(&Some(false)), live);
    let staging = ModrinthUrl::new(&Some(true));
    assert_eq!(staging.labrinth, "https://staging-api.modrinth.com/v2");
    assert_eq!(staging.knossos, "https://staging.modrinth.com");
}

#[test]
fn accepted_version_is_a_success() {
    assert!(upload_result(200, "{}".to_string()).is_ok());
    assert!(upload_result(201, String::new()).is_ok());
    assert!(upload_result(299, "anything".to_string()).is_ok());
}

#[test]
fn refused_version_reports_the_body_verbatim() {
    let body = "{\"error\":\"invalid_input\",\"description\":\"Error while validating input: \
                Field version_number failed validation\"}";
    let error = upload_result(422, body.to_string()).unwrap_err();
    assert_eq!(error.kind, ErrorKind::ModrinthRejected);
    assert_eq!(error.detail, body);
    assert_eq!(error.message(), format!("Failed to upload version to Modrinth: {}", body));
    assert!(error.message().contains(body));
}

#[test]
fn every_status_outside_200_to_299_is_a_refusal() {
    for status in [0u16, 100, 199, 300, 301, 400, 401, 404, 422, 500, 503, u16::MAX] {
        let error = upload_result(status, "why".to_string()).unwrap_err();
        assert_eq!(error.kind, ErrorKind::ModrinthRejected);
        assert_eq!(error.message(), "Failed to upload version to Modrinth: why");
    }
}
