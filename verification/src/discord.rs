//! Announcing a release in the chat.
//!
//! The announcement is one message with one embed. This module says what
//! stands in it; the program around it asks the mod platform for the project
//! and delivers the message to the webhook.

use vstd::prelude::*;
use crate::error::{fails_with, ErrorKind, PeonyError};
use crate::http::{header_views, Body, BodyView, Header, Method, Request, RequestView};
use crate::models::modrinth::project::{ProjectResponse, ProjectType};
use crate::models::modrinth::ModrinthUrl;
use crate::models::{DiscordConfig, GithubConfig};
use crate::outside::{format_time, formatted_time};
use crate::text::optional_text;

verus! {

/// The message that announces a release: the text above the embed, and the
/// embed's title, description, colour, footer and pictures.
#[derive(Debug, Clone, PartialEq, Eq)]
pub struct WebhookMessage {
    pub content: String,
    pub title: String,
    pub description: String,
    pub color: i32,
    pub footer: String,
    pub image_url: Option<String>,
    pub thumbnail_url: Option<String>,
}

/// An announcement seen as plain values.
pub struct WebhookMessageView {
    pub content: Seq<char>,
    pub title: Seq<char>,
    pub description: Seq<char>,
    pub color: int,
    pub footer: Seq<char>,
    pub image_url: Option<Seq<char>>,
    pub thumbnail_url: Option<Seq<char>>,
}

impl View for WebhookMessage {
    type V = WebhookMessageView;

    open spec fn view(&self) -> WebhookMessageView {
        WebhookMessageView {
            content: self.content@,
            title: self.title@,
            description: self.description@,
            color: self.color as int,
            footer: self.footer@,
            image_url: optional_text(self.image_url),
            thumbnail_url: optional_text(self.thumbnail_url),
        }
    }
}

/// The announcer's section of a configuration, or the failure that the
/// configuration has none although an announcement was asked for.
pub fn announcer_config(discord: &Option<DiscordConfig>) -> (out: Result<&DiscordConfig, PeonyError>)
    ensures
        match *discord {
            Some(config) => out matches Ok(found) && *found == config,
            None => fails_with(out, ErrorKind::DiscordConfigMissing, Seq::empty()),
        },
{
    match discord {
        Some(config) => Ok(config),
        None => Err(PeonyError::plain(ErrorKind::DiscordConfigMissing)),
    }
}

/// The address that describes a project of the mod platform.
pub open spec fn project_url_text(labrinth: Seq<char>, project_id: Seq<char>) -> Seq<char> {
    labrinth + "/project/"@ + project_id
}

/// The request for the project that is announced, with `modrinth_token` as
/// its authorization.
pub fn project_request(modrinth_url: &ModrinthUrl, modrinth_project_id: &String, modrinth_token: String) -> (out: Request)
    ensures
        out@ == (RequestView {
            method: Method::Get,
            url: project_url_text(modrinth_url.labrinth@, modrinth_project_id@),
            headers: seq![("Authorization"@, modrinth_token@)],
            body: BodyView::Empty,
        }),
{
    let mut url = String::from_str(modrinth_url.labrinth.as_str());
    url.append("/project/");
    url.append(modrinth_project_id.as_str());
    let mut headers: Vec<Header> = Vec::new();
    headers.push(Header { name: "Authorization".to_owned(), value: modrinth_token });
    let out = Request { method: Method::Get, url, headers, body: Body::Empty };
    assert(header_views(out.headers@) =~= seq![("Authorization"@, modrinth_token@)]);
    out
}

/// The colour of the embed as a signed number: the configured colour with
/// its 32 bits read as a signed number, else the project's colour, else a
/// dark blue-grey.
pub open spec fn embed_color_value(configured: Option<u32>, project: Option<i32>) -> int {
    match configured {
        Some(color) => if color >= 0x8000_0000 {
            color - 0x1_0000_0000
        } else {
            color as int
        },
        None => match project {
            Some(color) => color as int,
            None => 0x232634,
        },
    }
}

/// Chooses the colour of the embed.
pub fn embed_color(configured: Option<u32>, project: Option<i32>) -> (out: i32)
    ensures
        out == embed_color_value(configured, project),
{
    match configured {
        Some(color) => if color >= 0x8000_0000 {
            let low: u32 = color - 0x8000_0000;
            (low as i32) + i32::MIN
        } else {
            color as i32
        },
        None => match project {
            Some(color) => color,
            None => 0x232634,
        },
    }
}

/// The title of the embed: the configured emoji and the release name.
pub open spec fn title_text(title_emoji: Seq<char>, version_name: Seq<char>) -> Seq<char> {
    title_emoji + " "@ + version_name
}

/// The description of the embed: a heading, a link to the latest release on
/// the code host, a link to the project on the mod platform, each behind its
/// emoji, and the changelog.
pub open spec fn description_text(
    github_emoji_id: Seq<char>,
    repo_owner: Seq<char>,
    repo_name: Seq<char>,
    modrinth_emoji_id: Seq<char>,
    knossos: Seq<char>,
    slug: Seq<char>,
    changelog: Seq<char>,
) -> Seq<char> {
    "**New release!**\n\n"@ + github_emoji_id + " [GitHub](https://github.com/"@ + repo_owner + "/"@
        + repo_name + "/releases/latest)\n"@ + modrinth_emoji_id + " [Modrinth]("@ + knossos
        + "/modpack/"@ + slug + ")\n\n"@ + changelog + "\n        "@
}

/// The footer of the embed: the kind of project and the time of the release.
pub open spec fn footer_text(project_type: ProjectType, release_time: Seq<char>) -> Seq<char> {
    project_type.formatted_text() + " | "@ + release_time + " UTC"@
}

/// The announcement of the release `version_name`, made at `release_time`.
pub open spec fn announcement(
    discord_config: DiscordConfig,
    modrinth_url: ModrinthUrl,
    modrinth_project: ProjectResponse,
    github_config: GithubConfig,
    version_name: Seq<char>,
    changelog: Seq<char>,
    release_time: Seq<char>,
) -> WebhookMessageView {
    WebhookMessageView {
        content: discord_config.discord_ping_role@,
        title: title_text(discord_config.title_emoji@, version_name),
        description: description_text(
            discord_config.github_emoji_id@,
            github_config.repo_owner@,
            github_config.repo_name@,
            discord_config.modrinth_emoji_id@,
            modrinth_url.knossos@,
            modrinth_project.slug@,
            changelog,
        ),
        color: embed_color_value(discord_config.embed_color, modrinth_project.color),
        footer: footer_text(modrinth_project.project_type, release_time),
        image_url: optional_text(discord_config.embed_image_url),
        thumbnail_url: optional_text(discord_config.thumbnail_image_url),
    }
}

/// Writes the announcement of a release whose time is already written:
/// `release_time` stands in the footer as it is.
pub fn webhook_message(
    discord_config: &DiscordConfig,
    modrinth_url: &ModrinthUrl,
    modrinth_project: &ProjectResponse,
    github_config: &GithubConfig,
    version_name: &String,
    changelog: &String,
    release_time: &str,
) -> (out: WebhookMessage)
    ensures
        out@ == announcement(
            *discord_config,
            *modrinth_url,
            *modrinth_project,
            *github_config,
            version_name@,
            changelog@,
            release_time@,
        ),
{
    let mut description = String::from_str("**New release!**\n\n");
    description.append(discord_config.github_emoji_id.as_str());
    description.append(" [GitHub](https://github.com/");
    description.append(github_config.repo_owner.as_str());
    description.append("/");
    description.append(github_config.repo_name.as_str());
    description.append("/releases/latest)\n");
    description.append(discord_config.modrinth_emoji_id.as_str());
    description.append(" [Modrinth](");
    description.append(modrinth_url.knossos.as_str());
    description.append("/modpack/");
    description.append(modrinth_project.slug.as_str());
    description.append(")\n\n");
    description.append(changelog.as_str());
    description.append("\n        ");

    let mut title = String::from_str(discord_config.title_emoji.as_str());
    title.append(" ");
    title.append(version_name.as_str());

    let mut footer = modrinth_project.project_type.formatted();
    footer.append(" | ");
    footer.append(release_time);
    footer.append(" UTC");

    WebhookMessage {
        content: discord_config.discord_ping_role.clone(),
        title,
        description,
        color: embed_color(discord_config.embed_color, modrinth_project.color),
        footer,
        image_url: discord_config.embed_image_url.clone(),
        thumbnail_url: discord_config.thumbnail_image_url.clone(),
    }
}

/// The format in which the footer tells the time of the release: month,
/// day, year, and the time of day on a twelve-hour clock.
pub open spec fn release_time_format() -> Seq<char> {
    "%b, %d %Y %r"@
}

/// Writes the announcement of a release made `released_at` seconds after
/// the start of 1970. `modrinth_project` is the mod platform's answer to
/// [`project_request`].
///
/// There is no announcement for a moment that cannot be written: one too far
/// from the present for the calendar.
pub fn send_discord_webhook(
    discord_config: &DiscordConfig,
    modrinth_url: &ModrinthUrl,
    modrinth_project: &ProjectResponse,
    github_config: &GithubConfig,
    version_name: &String,
    changelog: &String,
    released_at: i64,
) -> (out: Option<WebhookMessage>)
    ensures
        match formatted_time(released_at as int, release_time_format()) {
            Some(release_time) => out matches Some(message) && message@ == announcement(
                *discord_config,
                *modrinth_url,
                *modrinth_project,
                *github_config,
                version_name@,
                changelog@,
                release_time,
            ),
            None => out is None,
        },
{
    match format_time(released_at, "%b, %d %Y %r") {
        Some(release_time) => Some(
            webhook_message(
                discord_config,
                modrinth_url,
                modrinth_project,
                github_config,
                version_name,
                changelog,
                release_time.as_str(),
            ),
        ),
        None => None,
    }
}

} // verus!
