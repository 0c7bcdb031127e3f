//! A project as the mod platform describes it.

use vstd::prelude::*;
use crate::models::modrinth::{DonationObject, GalleryObject, LicenseObject};

verus! {

/// The kinds of project that the mod platform hosts.
#[derive(Debug, Clone, Copy, PartialEq, Eq, Structural)]
pub enum ProjectType {
    Mod,
    Plugin,
    Datapack,
    Shader,
    Resourcepack,
    Modpack,
}

impl ProjectType {
    /// The kind's name as it is shown to people.
    pub open spec fn formatted_text(self) -> Seq<char> {
        match self {
            ProjectType::Mod => "Mod"@,
            ProjectType::Plugin => "Plugin"@,
            ProjectType::Datapack => "Data Pack"@,
            ProjectType::Shader => "Shader"@,
            ProjectType::Resourcepack => "Resource Pack"@,
            ProjectType::Modpack => "Modpack"@,
        }
    }

    /// The kind's name as it is shown to people.
    pub fn formatted(&self) -> (out: String)
        ensures
            out@ == self.formatted_text(),
    {
        match self {
            Self::Mod => "Mod",
            Self::Plugin => "Plugin",
            Self::Datapack => "Data Pack",
            Self::Shader => "Shader",
            Self::Resourcepack => "Resource Pack",
            Self::Modpack => "Modpack",
        }.to_owned()
    }
}

/// The answer to a request for a project.
#[derive(Debug, Clone, PartialEq, Eq)]
pub struct ProjectResponse {
    pub slug: String,
    pub title: String,
    /// The field `description` of the API: one line about the project.
    pub summary: String,
    pub categories: Option<Vec<String>>,
    pub client_side: String,
    pub server_side: String,
    /// The field `body` of the API: the long text.
    pub description: Option<String>,
    pub status: String,
    pub additional_categories: Option<Vec<String>>,
    pub issues_url: Option<String>,
    pub source_url: Option<String>,
    pub wiki_url: Option<String>,
    pub discord_url: Option<String>,
    pub donation_urls: Vec<DonationObject>,
    pub project_type: ProjectType,
    pub downloads: i32,
    pub icon_url: Option<String>,
    pub color: Option<i32>,
    pub thread_id: String,
    pub monetization_status: String,
    pub id: String,
    pub team: String,
    pub organization: Option<String>,
    pub body_url: Option<String>,
    /// Only old projects have one; newer ones have a thread.
    pub moderator_message: Option<String>,
    pub published: String,
    pub updated: String,
    pub approved: Option<String>,
    pub queued: Option<String>,
    pub followers: i32,
    pub license: LicenseObject,
    pub versions: Vec<String>,
    pub game_versions: Vec<String>,
    pub loaders: Vec<String>,
    pub gallery: Vec<GalleryObject>,
}

} // verus!
