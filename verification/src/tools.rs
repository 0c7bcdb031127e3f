//! The tools that a run calls and the names it looks up, as values.
//!
//! The library starts no process. It says which program is to be run with
//! which arguments and where, and the program around it runs it.

use vstd::prelude::*;
use crate::mc_mod::gradle_script;
use crate::models::util::TempInfo;
use crate::text::{optional_text, texts};

verus! {

/// The run configuration of a modpack, in the project's directory.
pub const MODPACK_CONFIG_FILE: &'static str = "mrpack.toml";

/// The run configuration of a mod, in the project's directory.
pub const MOD_CONFIG_FILE: &'static str = "peony_mod.toml";

/// The manifest that packwiz keeps, in the project's directory.
pub const PACK_FILE: &'static str = "pack.toml";

/// The variable of the environment that holds the code host's access token.
pub const GITHUB_TOKEN: &'static str = "GITHUB_TOKEN";

/// The variable of the environment that holds the mod platform's access
/// token.
pub const MODRINTH_TOKEN: &'static str = "MODRINTH_TOKEN";

/// The variable of the environment that holds the webhook's address.
pub const WEBHOOK_URL: &'static str = "WEBHOOK_URL";

/// The program that builds a modpack. A run needs it on the search path.
pub const PACKWIZ: &'static str = "packwiz";

/// The program that a mod's build needs on the search path.
pub const JAVA: &'static str = "java";

/// A program to run: its name or path, its arguments, and the directory to
/// run it in, which is the current one where none is given.
#[derive(Debug, Clone, PartialEq, Eq)]
pub struct Invocation {
    pub program: String,
    pub args: Vec<String>,
    pub dir: Option<String>,
}

/// An invocation seen as plain values.
pub struct InvocationView {
    pub program: Seq<char>,
    pub args: Seq<Seq<char>>,
    pub dir: Option<Seq<char>>,
}

impl View for Invocation {
    type V = InvocationView;

    open spec fn view(&self) -> InvocationView {
        InvocationView {
            program: self.program@,
            args: texts(self.args@),
            dir: optional_text(self.dir),
        }
    }
}

/// The build of a modpack: `packwiz mr export`, in the workspace.
pub fn packwiz_export(tmp_dir_info: &TempInfo) -> (out: Invocation)
    ensures
        out@ == (InvocationView {
            program: "packwiz"@,
            args: seq!["mr"@, "export"@],
            dir: Some(tmp_dir_info.dir_path@),
        }),
{
    let mut args: Vec<String> = Vec::new();
    args.push("mr".to_owned());
    args.push("export".to_owned());
    let out = Invocation {
        program: "packwiz".to_owned(),
        args,
        dir: Some(tmp_dir_info.dir_path.clone()),
    };
    assert(texts(out.args@) =~= seq!["mr"@, "export"@]);
    out
}

/// The build of a mod: the project's Gradle wrapper script with
/// `gradle_args` as its one argument, in the workspace.
pub fn gradle_build(tmp_dir_info: &TempInfo, windows: bool, gradle_args: &str) -> (out: Invocation)
    ensures
        out@ == (InvocationView {
            program: if windows {
                ".\\gradlew.bat"@
            } else {
                "./gradlew"@
            },
            args: seq![gradle_args@],
            dir: Some(tmp_dir_info.dir_path@),
        }),
{
    let mut args: Vec<String> = Vec::new();
    args.push(gradle_args.to_owned());
    let out = Invocation {
        program: gradle_script(windows).to_owned(),
        args,
        dir: Some(tmp_dir_info.dir_path.clone()),
    };
    assert(texts(out.args@) =~= seq![gradle_args@]);
    out
}

/// The question for the repository's first commit:
/// `git rev-list --max-parents=0 HEAD`, in the project's directory.
pub fn first_commit() -> (out: Invocation)
    ensures
        out@ == (InvocationView {
            program: "git"@,
            args: seq!["rev-list"@, "--max-parents=0"@, "HEAD"@],
            dir: None,
        }),
{
    let mut args: Vec<String> = Vec::new();
    args.push("rev-list".to_owned());
    args.push("--max-parents=0".to_owned());
    args.push("HEAD".to_owned());
    let out = Invocation { program: "git".to_owned(), args, dir: None };
    assert(texts(out.args@) =~= seq!["rev-list"@, "--max-parents=0"@, "HEAD"@]);
    out
}

} // verus!
