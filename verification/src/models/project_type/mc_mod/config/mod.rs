//! The run configuration of a mod.

use vstd::prelude::*;
use crate::models::modrinth::Loader;
use crate::models::project_type::mc_mod::config::modrinth::ModrinthConfig;
use crate::models::{DiscordConfig, GithubConfig};

pub mod modrinth;

verus! {

/// The run configuration of a mod.
#[derive(Debug, Clone, PartialEq, Eq)]
pub struct ModConfig {
    pub config_format_version: i32,
    /// The release name, with placeholders between percent signs.
    pub version_name_format: String,
    pub loaders: Vec<Loader>,
    pub mc_versions: Vec<String>,
    /// What stands for the game version in the release name.
    pub mc_version_alias: String,
    /// What stands for the mod's version in the release name, if not the
    /// version itself.
    pub version_alias: Option<String>,
    pub github: GithubConfig,
    pub modrinth: ModrinthConfig,
    pub discord: Option<DiscordConfig>,
}

} // verus!
