//! The run configuration of a modpack.

use vstd::prelude::*;
use crate::models::{DiscordConfig, GithubConfig, ModrinthConfig};

verus! {

/// The run configuration of a modpack, `mrpack.toml`.
#[derive(Debug, Clone, PartialEq, Eq)]
pub struct ModpackConfig {
    pub config_format_version: i32,
    /// The release name, with placeholders between percent signs.
    pub version_name_format: String,
    pub github: GithubConfig,
    pub modrinth: ModrinthConfig,
    pub discord: Option<DiscordConfig>,
}

} // verus!
