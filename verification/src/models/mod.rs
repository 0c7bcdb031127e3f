//! The data of a run: configuration, manifests, artifacts, and the bodies of
//! the requests and responses of the remote services.

use vstd::prelude::*;

pub mod github;
pub mod meta;
pub mod modrinth;
pub mod project_type;
pub mod util;
pub mod version;

verus! {

/// The repository on the code host that receives the release.
#[derive(Debug, Clone, PartialEq, Eq)]
pub struct GithubConfig {
    pub repo_owner: String,
    pub repo_name: String,
}

/// The project on the mod platform that receives a modpack version.
#[derive(Debug, Clone, PartialEq, Eq)]
pub struct ModrinthConfig {
    pub project_id: String,
    /// Publish to the platform's staging site. Absent means no.
    pub staging: Option<bool>,
}

/// How the announcement in the chat looks.
#[derive(Debug, Clone, PartialEq, Eq)]
pub struct DiscordConfig {
    pub github_emoji_id: String,
    pub modrinth_emoji_id: String,
    pub discord_ping_role: String,
    pub title_emoji: String,
    pub embed_image_url: Option<String>,
    pub thumbnail_image_url: Option<String>,
    pub embed_color: Option<u32>,
}

} // verus!
