//! A mod: what its jar says of it, and the jars that its build leaves.

use vstd::prelude::*;

pub mod config;
pub mod version;

verus! {

/// What a jar's loader metadata says of the mod.
#[derive(Debug, Clone, PartialEq, Eq)]
pub struct ModInfo {
    pub id: String,
    pub name: String,
    pub version: String,
}

/// The jars of one build: the mod itself and, if the build made one, its
/// sources.
#[derive(Debug, Clone, PartialEq, Eq)]
pub struct ModJars {
    pub mod_jar: Jar,
    pub sources_jar: Option<Jar>,
}

/// A jar in the workspace.
#[derive(Debug, Clone, PartialEq, Eq)]
pub struct Jar {
    pub file_name: String,
    pub file_path: String,
}

} // verus!
