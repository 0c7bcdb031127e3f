//! A modpack: the manifest that packwiz keeps of it.

use vstd::prelude::*;

pub mod config;

verus! {

/// The pack manifest, `pack.toml`.
#[derive(Debug, Clone, PartialEq, Eq)]
pub struct PackFile {
    pub name: String,
    pub author: Option<String>,
    pub description: Option<String>,
    pub version: String,
    /// The key `pack-format` of the file.
    pub pack_format: String,
    pub index: PackFileIndex,
    pub versions: PackFileVersions,
    pub options: Option<PackFileOptions>,
}

/// The manifest's pointer to the index of the pack's files.
#[derive(Debug, Clone, PartialEq, Eq)]
pub struct PackFileIndex {
    pub file: String,
    /// The key `hash-format` of the file.
    pub hash_format: String,
    pub hash: String,
}

/// The game version that the pack is for, and the version of each loader
/// that it declares.
#[derive(Debug, Clone, PartialEq, Eq)]
pub struct PackFileVersions {
    pub minecraft: String,
    pub quilt: Option<String>,
    pub fabric: Option<String>,
    pub forge: Option<String>,
    pub liteloader: Option<String>,
}

/// The manifest's optional settings; each key is written with hyphens in
/// the file.
#[derive(Debug, Clone, PartialEq, Eq)]
pub struct PackFileOptions {
    pub acceptable_game_versions: Option<Vec<String>>,
    pub mods_folder: Option<String>,
    pub meta_folder: Option<String>,
    pub meta_folder_base: Option<String>,
    pub no_internal_hashes: Option<bool>,
    pub datapack_folder: Option<String>,
}

} // verus!
