use peony::error::ErrorKind;
use peony::models::modrinth::Loader;
use peony::models::project_type::mc_mod::config::modrinth::ModrinthConfig as ModModrinthConfig;
use peony::models::project_type::mc_mod::config::ModConfig;
use peony::models::project_type::mc_mod::version::ModVersionInfo;
use peony::models::project_type::mc_mod::{Jar, ModInfo, ModJars};
use peony::models::project_type::modpack::config::ModpackConfig;
use peony::models::project_type::modpack::{PackFile, PackFileIndex, PackFileVersions};
use peony::models::{GithubConfig, ModrinthConfig};
use peony::text::contains;
use peony::version::{format_loaders, get_modpack_version_info, select_loader, version_name};

fn versions(
    quilt: Option<&str>,
    fabric: Option<&str>,
    forge: Option<&str>,
    liteloader: Option<&str>,
) -> PackFileVersions {
    PackFileVersions {
        minecraft: "1.20.1".to_string(),
        quilt: quilt.map(|v| v.to_string()),
        fabric: fabric.map(|v| v.to_string()),
        forge: forge.map(|v| v.to_string()),
        liteloader: liteloader.map(|v| v.to_string()),
    }
}

fn pack_file(name: &str, version: &str, versions: PackFileVersions) -> PackFile {
    PackFile {
        name: name.to_string(),
        author: None,
        description: None,
        version: version.to_string(),
        pack_format: "packwiz:1.1.0".to_string(),
        index: PackFileIndex {
            file: "index.toml".to_string(),
            hash_format: "sha256".to_string(),
            hash: "00".to_string(),
        },
        versions,
        options: None,
    }
}

fn modpack_config(template: &str) -> ModpackConfig {
    ModpackConfig {
        config_format_version: 1,
        version_name_format: template.to_string(),
        github: GithubConfig { repo_owner: "owner".to_string(), repo_name: "repo".to_string() },
        modrinth: ModrinthConfig { project_id: "abc123".to_string(), staging: None },
        discord: None,
    }
}

fn mod_config(template: &str, loaders: Vec<Loader>, version_alias: Option<&str>) -> ModConfig {
    ModConfig {
        config_format_version: 1,
        version_name_format: template.to_string(),
        loaders,
        mc_versions: vec!["1.20".to_string(), "1.20.1".to_string()],
        mc_version_alias: "1.20.x".to_string(),
        version_alias: version_alias.map(|v| v.to_string()),
        github: GithubConfig { repo_owner: "owner".to_string(), repo_name: "repo".to_string() },
        modrinth: ModModrinthConfig {
            project_id: "abc123".to_string(),
            staging: None,
            dependencies: None,
        },
        discord: None,
    }
}

fn has_any_placeholder(text: &str) -> bool {
    contains(text, "%project_name%")
        || contains(text, "%project_version%")
        || contains(text, "%mc_version%")
        || contains(text, "%loader%")
}

#[test]
fn fabric_modpack_is_named_from_the_template() {
    let config = modpack_config("%project_name% %project_version% (%loader%)");
    let pack = pack_file("MyPack", "1.2.0", versions(None, Some("0.90.0"), None, None));
    let info = get_modpack_version_info(&config, &pack, Ok(vec![1, 2, 3])).unwrap();
    assert_eq!(info.version_name, "MyPack 1.2.0 (Fabric)");
    assert_eq!(info.loader, Loader::Fabric);
    assert_eq!(info.file_contents, vec![1, 2, 3]);
}

#[test]
fn template_with_all_four_placeholders() {
    let name = version_name(
        "%project_name% v%project_version% for %mc_version% [%loader%]",
        "MyPack",
        "1.2.0",
        "1.20.1",
        "Quilt",
    );
    assert_eq!(name, "MyPack v1.2.0 for 1.20.1 [Quilt]");
}

#[test]
fn every_occurrence_of_a_placeholder_is_replaced() {
    let name = version_name("%loader%-%loader%%loader%", "n", "v", "m", "Forge");
    assert_eq!(name, "Forge-ForgeForge");
}

#[test]
fn template_without_placeholders_is_kept() {
    assert_eq!(version_name("Release", "n", "v", "m", "Forge"), "Release");
    assert_eq!(version_name("", "n", "v", "m", "Forge"), "");
    assert_eq!(version_name("100% done %unknown%", "n", "v", "m", "Forge"), "100% done %unknown%");
}

#[test]
fn replacements_run_in_order_on_the_result_of_the_one_before() {
    // The project's name brings a later placeholder, which is then replaced too.
    assert_eq!(version_name("%project_name%", "%loader%", "v", "m", "Forge"), "Forge");
    // A placeholder that comes in with a later value stays.
    assert_eq!(
        version_name("%loader%", "n", "v", "m", "%project_name%"),
        "%project_name%"
    );
}

#[test]
fn safe_values_leave_no_placeholder() {
    let templates = [
        "%project_name% %project_version% (%loader%)",
        "%%project_name%%mc_version%%",
        "%project_%mc_version%%loader%name%",
        "%pro%loader%ject_name% %loader%project_version%mc_version%",
        "%loader%project_name%loader%",
    ];
    for template in templates {
        let name = version_name(template, "MyPack", "1.2.0", "1.20.1", "Fabric");
        assert!(!has_any_placeholder(&name));
    }
}

#[test]
fn unsafe_values_can_leave_a_placeholder() {
    // A value that is part of a placeholder's word completes one.
    let joined = version_name("%project_%mc_version%%", "n", "v", "name", "Forge");
    assert_eq!(joined, "%project_name%");
    assert!(has_any_placeholder(&joined));
    // So does an empty value.
    let closed = version_name("%pro%mc_version%ject_name%", "n", "v", "", "Forge");
    assert_eq!(closed, "%project_name%");
    // And a value that holds a placeholder brings it along.
    let brought = version_name("%project_name%", "%project_name%", "v", "m", "Forge");
    assert_eq!(brought, "%project_name%");
}

#[test]
fn loader_priority_is_quilt_fabric_forge_liteloader() {
    assert_eq!(
        select_loader(&versions(Some("1"), Some("1"), Some("1"), Some("1"))),
        Some(Loader::Quilt)
    );
    assert_eq!(select_loader(&versions(None, Some("1"), Some("1"), Some("1"))), Some(Loader::Fabric));
    assert_eq!(select_loader(&versions(None, None, Some("1"), Some("1"))), Some(Loader::Forge));
    assert_eq!(select_loader(&versions(None, None, None, Some("1"))), Some(Loader::Liteloader));
    assert_eq!(select_loader(&versions(Some("1"), None, None, Some("1"))), Some(Loader::Quilt));
    assert_eq!(select_loader(&versions(None, Some("1"), None, Some("1"))), Some(Loader::Fabric));
    assert_eq!(select_loader(&versions(None, None, None, None)), None);
}

#[test]
fn loader_selection_ignores_the_versions_asked_for() {
    let a = versions(None, Some("0.90.0"), Some("47.1.0"), None);
    let b = versions(None, Some(""), Some("zzz"), None);
    assert_eq!(select_loader(&a), select_loader(&b));
}

#[test]
fn modpack_with_several_loaders_is_named_after_the_first() {
    let config = modpack_config("%loader%");
    let pack = pack_file("P", "1", versions(None, Some("0.90.0"), Some("47"), Some("1")));
    let info = get_modpack_version_info(&config, &pack, Ok(vec![])).unwrap();
    assert_eq!(info.version_name, "Fabric");
    assert_eq!(info.loader, Loader::Fabric);
}

#[test]
fn modpack_without_a_loader_is_refused() {
    let config = modpack_config("%project_name%");
    let pack = pack_file("P", "1", versions(None, None, None, None));
    let error = get_modpack_version_info(&config, &pack, Ok(vec![1])).unwrap_err();
    assert_eq!(error.kind, ErrorKind::LoaderMissing);
    assert_eq!(error.message(), "Failed to parse loader name");
}

#[test]
fn missing_loader_is_reported_before_a_failed_read() {
    let config = modpack_config("%project_name%");
    let pack = pack_file("P", "1", versions(None, None, None, None));
    let error =
        get_modpack_version_info(&config, &pack, Err("no such file".to_string())).unwrap_err();
    assert_eq!(error.kind, ErrorKind::LoaderMissing);
}

#[test]
fn unreadable_modpack_archive_is_reported() {
    let config = modpack_config("%project_name%");
    let pack = pack_file("P", "1", versions(Some("0.20"), None, None, None));
    let error =
        get_modpack_version_info(&config, &pack, Err("no such file".to_string())).unwrap_err();
    assert_eq!(error.kind, ErrorKind::ModpackRead);
    assert_eq!(error.message(), "Failed to read .mrpack file: no such file");
}

#[test]
fn loaders_are_joined_with_slashes() {
    assert_eq!(format_loaders(&vec![]), "");
    assert_eq!(format_loaders(&vec![Loader::Neoforge]), "NeoForge");
    assert_eq!(
        format_loaders(&vec![Loader::Quilt, Loader::Fabric, Loader::Liteloader]),
        "Quilt/Fabric/LiteLoader"
    );
}

#[test]
fn loader_names_are_formatted() {
    assert_eq!(Loader::Quilt.formatted(), "Quilt");
    assert_eq!(Loader::Fabric.formatted(), "Fabric");
    assert_eq!(Loader::Neoforge.formatted(), "NeoForge");
    assert_eq!(Loader::Forge.formatted(), "Forge");
    assert_eq!(Loader::Liteloader.formatted(), "LiteLoader");
}

fn jars(with_sources: bool) -> ModJars {
    ModJars {
        mod_jar: Jar {
            file_name: "mymod-1.0.0.jar".to_string(),
            file_path: "/tmp/w/build/libs/mymod-1.0.0.jar".to_string(),
        },
        sources_jar: if with_sources {
            Some(Jar {
                file_name: "mymod-1.0.0-sources.jar".to_string(),
                file_path: "/tmp/w/build/libs/mymod-1.0.0-sources.jar".to_string(),
            })
        } else {
            None
        },
    }
}

fn info() -> ModInfo {
    ModInfo { id: "mymod".to_string(), name: "My Mod".to_string(), version: "1.0.0".to_string() }
}

#[test]
fn mod_release_is_named_with_joined_loaders() {
    let config = mod_config(
        "%project_name% %project_version% for %mc_version% (%loader%)",
        vec![Loader::Quilt, Loader::Fabric],
        None,
    );
    let made =
        ModVersionInfo::new(&config, &jars(false), &info(), Ok(vec![9, 8]), None).unwrap();
    assert_eq!(made.name, "My Mod 1.0.0 for 1.20.x (Quilt/Fabric)");
    assert_eq!(made.version, "1.0.0");
    assert_eq!(made.loaders, vec![Loader::Quilt, Loader::Fabric]);
    assert_eq!(made.mod_file.name, "mymod-1.0.0.jar");
    assert_eq!(made.mod_file.contents, vec![9, 8]);
    assert_eq!(made.sources_file, None);
}

#[test]
fn mod_release_uses_the_version_alias_in_its_name_only() {
    let config = mod_config("%project_version%", vec![Loader::Fabric], Some("1.0"));
    let made = ModVersionInfo::new(&config, &jars(false), &info(), Ok(vec![]), None).unwrap();
    assert_eq!(made.name, "1.0");
    assert_eq!(made.version, "1.0.0");
}

#[test]
fn mod_release_holds_the_sources_jar_when_there_is_one() {
    let config = mod_config("x", vec![Loader::Fabric], None);
    let made =
        ModVersionInfo::new(&config, &jars(true), &info(), Ok(vec![1]), Some(Ok(vec![2, 3])))
            .unwrap();
    let sources = made.sources_file.unwrap();
    assert_eq!(sources.name, "mymod-1.0.0-sources.jar");
    assert_eq!(sources.contents, vec![2, 3]);
}

#[test]
fn sources_contents_without_a_sources_jar_are_ignored() {
    let config = mod_config("x", vec![Loader::Fabric], None);
    let made =
        ModVersionInfo::new(&config, &jars(false), &info(), Ok(vec![1]), Some(Ok(vec![2])))
            .unwrap();
    assert_eq!(made.sources_file, None);
    let failed = ModVersionInfo::new(
        &config,
        &jars(false),
        &info(),
        Ok(vec![1]),
        Some(Err("gone".to_string())),
    );
    assert!(failed.is_ok());
}

#[test]
fn unreadable_jars_are_reported_mod_jar_first() {
    let config = mod_config("x", vec![Loader::Fabric], None);
    let both = ModVersionInfo::new(
        &config,
        &jars(true),
        &info(),
        Err("first".to_string()),
        Some(Err("second".to_string())),
    )
    .unwrap_err();
    assert_eq!(both.kind, ErrorKind::FileRead);
    assert_eq!(both.message(), "Failed to read file: first");
    let sources_only = ModVersionInfo::new(
        &config,
        &jars(true),
        &info(),
        Ok(vec![]),
        Some(Err("second".to_string())),
    )
    .unwrap_err();
    assert_eq!(sources_only.message(), "Failed to read file: second");
}
