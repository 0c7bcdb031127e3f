//! What every run configuration holds, whatever the kind of project.

use vstd::prelude::*;
use crate::models::{GithubConfig, ModrinthConfig};

verus! {

/// The part of a run configuration that modpacks and mods share.
#[derive(Debug, Clone, PartialEq, Eq)]
pub struct Config {
    pub config_format_version: i32,
    /// The release name, with placeholders between percent signs.
    pub version_name_format: String,
    pub github: GithubConfig,
    pub modrinth: ModrinthConfig,
}

} // verus!
