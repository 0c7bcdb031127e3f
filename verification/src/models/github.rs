//! Bodies of the code host's release API.

use vstd::prelude::*;
use crate::text::optional_text;

verus! {

/// The body of the request that creates a release.
#[derive(Debug, Clone, PartialEq, Eq)]
pub struct CreateReleaseRequest {
    pub tag_name: String,
    pub name: Option<String>,
    pub body: Option<String>,
    pub prerelease: bool,
}

/// The body of a release request seen as plain values.
pub struct CreateReleaseRequestView {
    pub tag_name: Seq<char>,
    pub name: Option<Seq<char>>,
    pub body: Option<Seq<char>>,
    pub prerelease: bool,
}

impl View for CreateReleaseRequest {
    type V = CreateReleaseRequestView;

    open spec fn view(&self) -> CreateReleaseRequestView {
        CreateReleaseRequestView {
            tag_name: self.tag_name@,
            name: optional_text(self.name),
            body: optional_text(self.body),
            prerelease: self.prerelease,
        }
    }
}

/// A release as the code host describes it.
#[derive(Debug, Clone, PartialEq, Eq)]
pub struct ReleaseResponse {
    pub url: String,
    pub html_url: String,
    pub assets_url: String,
    pub upload_url: String,
    pub tarball_url: Option<String>,
    pub zipball_url: Option<String>,
    pub id: i32,
    pub node_id: String,
    pub tag_name: String,
    pub target_commitish: String,
    pub name: Option<String>,
    pub body: Option<String>,
    pub draft: bool,
    pub prerelease: bool,
    pub created_at: String,
    pub published_at: Option<String>,
    pub author: GithubAuthor,
    pub assets: Vec<GithubAsset>,
    pub body_html: Option<String>,
    pub body_text: Option<String>,
    pub mentions_count: Option<i32>,
    pub discussion_url: Option<String>,
    pub reactions: Option<GithubReactions>,
}

/// A user of the code host.
#[derive(Debug, Clone, PartialEq, Eq)]
pub struct GithubAuthor {
    pub name: Option<String>,
    pub email: Option<String>,
    pub login: String,
    pub id: i32,
    pub node_id: String,
    pub avatar_url: String,
    pub gravatar_url: Option<String>,
    pub url: String,
    pub html_url: String,
    pub followers_url: String,
    pub following_url: String,
    pub gists_url: String,
    pub starred_url: String,
    pub subscriptions_url: String,
    pub organizations_url: String,
    pub repos_url: String,
    pub events_url: String,
    pub received_events_url: String,
    /// The field `type` of the API.
    pub type_string: String,
    pub site_admin: bool,
    pub starred_at: Option<String>,
}

/// A file attached to a release.
#[derive(Debug, Clone, PartialEq, Eq)]
pub struct GithubAsset {
    pub url: String,
    pub browser_download_url: String,
    pub id: i32,
    pub node_id: String,
    pub name: String,
    pub label: Option<String>,
    pub state: String,
    pub content_type: String,
    pub size: i32,
    pub download_count: i32,
    pub created_at: String,
    pub updated_at: String,
    pub uploader: Option<GithubAuthor>,
}

/// The reactions to a release, by kind.
#[derive(Debug, Clone, PartialEq, Eq)]
pub struct GithubReactions {
    pub url: String,
    pub total_count: i32,
    /// The field `+1` of the API.
    pub plus_one: i32,
    /// The field `-1` of the API.
    pub minus_one: i32,
    pub laugh: i32,
    pub confused: i32,
    pub heart: i32,
    pub hooray: i32,
    pub eyes: i32,
    pub rocket: i32,
}

} // verus!
