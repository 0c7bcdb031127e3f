use peony::models::util::TempInfo;
use peony::tools::{
    first_commit, gradle_build, packwiz_export, Invocation, GITHUB_TOKEN, JAVA,
    MODPACK_CONFIG_FILE, MODRINTH_TOKEN, MOD_CONFIG_FILE, PACKWIZ, PACK_FILE, WEBHOOK_URL,
};
use peony::version::holds_placeholder;

fn workspace() -> TempInfo {
    TempInfo { dir_name: "peony_x".to_string(), dir_path: "/tmp/peony_x".to_string() }
}

#[test]
fn modpack_is_built_by_packwiz_in_the_workspace() {
    assert_eq!(
        packwiz_export(&workspace()),
        Invocation {
            program: "packwiz".to_string(),
            args: vec!["mr".to_string(), "export".to_string()],
            dir: Some("/tmp/peony_x".to_string()),
        }
    );
}

#[test]
fn mod_is_built_by_the_gradle_wrapper_in_the_workspace() {
    assert_eq!(
        gradle_build(&workspace(), false, "build"),
        Invocation {
            program: "./gradlew".to_string(),
            args: vec!["build".to_string()],
            dir: Some("/tmp/peony_x".to_string()),
        }
    );
    assert_eq!(
        gradle_build(&workspace(), true, "clean build"),
        Invocation {
            program: ".\\gradlew.bat".to_string(),
            args: vec!["clean build".to_string()],
            dir: Some("/tmp/peony_x".to_string()),
        }
    );
}

#[test]
fn first_commit_is_asked_of_git_in_the_project() {
    assert_eq!(
        first_commit(),
        Invocation {
            program: "git".to_string(),
            args: vec!["rev-list".to_string(), "--max-parents=0".to_string(), "HEAD".to_string()],
            dir: None,
        }
    );
}

#[test]
fn names_that_a_run_looks_up() {
    assert_eq!(MODPACK_CONFIG_FILE, "mrpack.toml");
    assert_eq!(MOD_CONFIG_FILE, "peony_mod.toml");
    assert_eq!(PACK_FILE, "pack.toml");
    assert_eq!(GITHUB_TOKEN, "GITHUB_TOKEN");
    assert_eq!(MODRINTH_TOKEN, "MODRINTH_TOKEN");
    assert_eq!(WEBHOOK_URL, "WEBHOOK_URL");
    assert_eq!(PACKWIZ, "packwiz");
    assert_eq!(JAVA, "java");
}

#[test]
fn unfinished_names_are_told_from_finished_ones() {
    assert!(holds_placeholder("%project_name%"));
    assert!(holds_placeholder("x %project_version% y"));
    assert!(holds_placeholder("%%mc_version%%"));
    assert!(holds_placeholder("a%loader%"));
    assert!(!holds_placeholder(""));
    assert!(!holds_placeholder("MyPack 1.2.0 (Fabric)"));
    assert!(!holds_placeholder("%unknown% 100% %project_name"));
    assert!(!holds_placeholder("%Loader%"));
}
