use peony::discord::{
    announcer_config, embed_color, project_request, send_discord_webhook, webhook_message,
};
use peony::error::ErrorKind;
use peony::http::{Body, Header, Method};
use peony::models::modrinth::project::{ProjectResponse, ProjectType};
use peony::models::modrinth::{LicenseObject, ModrinthUrl};
use peony::models::{DiscordConfig, GithubConfig};

fn repo() -> GithubConfig {
    GithubConfig { repo_owner: "octo".to_string(), repo_name: "pack".to_string() }
}

fn discord(color: Option<u32>) -> DiscordConfig {
    DiscordConfig {
        github_emoji_id: "<:github:1>".to_string(),
        modrinth_emoji_id: "<:modrinth:2>".to_string(),
        discord_ping_role: "<@&42>".to_string(),
        title_emoji: ":tada:".to_string(),
        embed_image_url: Some("https://example.org/banner.png".to_string()),
        thumbnail_image_url: None,
        embed_color: color,
    }
}

fn project(color: Option<i32>, project_type: ProjectType) -> ProjectResponse {
    ProjectResponse {
        slug: "my-pack".to_string(),
        title: "My Pack".to_string(),
        summary: "A pack".to_string(),
        categories: None,
        client_side: "required".to_string(),
        server_side: "optional".to_string(),
        description: None,
        status: "approved".to_string(),
        additional_categories: None,
        issues_url: None,
        source_url: None,
        wiki_url: None,
        discord_url: None,
        donation_urls: vec![],
        project_type,
        downloads: 0,
        icon_url: None,
        color,
        thread_id: "t".to_string(),
        monetization_status: "monetized".to_string(),
        id: "abc123".to_string(),
        team: "team".to_string(),
        organization: None,
        body_url: None,
        moderator_message: None,
        published: String::new(),
        updated: String::new(),
        approved: None,
        queued: None,
        followers: 0,
        license: LicenseObject { id: "MIT".to_string(), name: "MIT".to_string(), url: None },
        versions: vec![],
        game_versions: vec![],
        loaders: vec![],
        gallery: vec![],
    }
}

#[test]
fn announcement_is_written_in_full() {
    let message = webhook_message(
        &discord(None),
        &ModrinthUrl::new(&None),
        &project(Some(0x1bd96a), ProjectType::Modpack),
        &repo(),
        &"MyPack 1.2.0 (Fabric)".to_string(),
        &"[Full Changelog](https://github.com/octo/pack/compare/1.1.0..HEAD)".to_string(),
        "May, 15 2015 12:00:00 AM",
    );
    assert_eq!(message.content, "<@&42>");
    assert_eq!(message.title, ":tada: MyPack 1.2.0 (Fabric)");
    assert_eq!(
        message.description,
        "**New release!**\n\n\
         <:github:1> [GitHub](https://github.com/octo/pack/releases/latest)\n\
         <:modrinth:2> [Modrinth](https://modrinth.com/modpack/my-pack)\n\n\
         [Full Changelog](https://github.com/octo/pack/compare/1.1.0..HEAD)\n        "
    );
    assert_eq!(message.color, 0x1bd96a);
    assert_eq!(message.footer, "Modpack | May, 15 2015 12:00:00 AM UTC");
    assert_eq!(message.image_url, Some("https://example.org/banner.png".to_string()));
    assert_eq!(message.thumbnail_url, None);
}

#[test]
fn announcement_tells_the_time_of_the_release() {
    let message = send_discord_webhook(
        &discord(None),
        &ModrinthUrl::new(&None),
        &project(None, ProjectType::Mod),
        &repo(),
        &"n".to_string(),
        &"c".to_string(),
        1431648000,
    )
    .unwrap();
    assert_eq!(message.footer, "Mod | May, 15 2015 12:00:00 AM UTC");
    let afternoon = send_discord_webhook(
        &discord(None),
        &ModrinthUrl::new(&None),
        &project(None, ProjectType::Resourcepack),
        &repo(),
        &"n".to_string(),
        &"c".to_string(),
        1700000000,
    )
    .unwrap();
    assert_eq!(afternoon.footer, "Resource Pack | Nov, 14 2023 10:13:20 PM UTC");
}

#[test]
fn announcement_at_the_start_of_1970() {
    let message = send_discord_webhook(
        &discord(None),
        &ModrinthUrl::new(&None),
        &project(None, ProjectType::Datapack),
        &repo(),
        &"n".to_string(),
        &"c".to_string(),
        0,
    )
    .unwrap();
    assert_eq!(message.footer, "Data Pack | Jan, 01 1970 12:00:00 AM UTC");
}

#[test]
fn announcement_with_and_without_the_clock_agree() {
    let with_clock = send_discord_webhook(
        &discord(Some(7)),
        &ModrinthUrl::new(&Some(true)),
        &project(Some(9), ProjectType::Shader),
        &repo(),
        &"n".to_string(),
        &"c".to_string(),
        1431648000,
    )
    .unwrap();
    let written = webhook_message(
        &discord(Some(7)),
        &ModrinthUrl::new(&Some(true)),
        &project(Some(9), ProjectType::Shader),
        &repo(),
        &"n".to_string(),
        &"c".to_string(),
        "May, 15 2015 12:00:00 AM",
    );
    assert_eq!(with_clock, written);
    assert!(written.description.contains("(https://staging.modrinth.com/modpack/my-pack)"));
}

#[test]
fn moment_beyond_the_calendar_gives_no_announcement() {
    for seconds in [i64::MAX, i64::MIN] {
        let message = send_discord_webhook(
            &discord(None),
            &ModrinthUrl::new(&None),
            &project(None, ProjectType::Mod),
            &repo(),
            &"n".to_string(),
            &"c".to_string(),
            seconds,
        );
        assert_eq!(message, None);
    }
}

#[test]
fn configured_colour_wins_over_the_project_colour() {
    assert_eq!(embed_color(Some(0x00ff00), Some(0x123456)), 0x00ff00);
    assert_eq!(embed_color(Some(0), Some(0x123456)), 0);
    assert_eq!(embed_color(None, Some(0x123456)), 0x123456);
    assert_eq!(embed_color(None, Some(-5)), -5);
    assert_eq!(embed_color(None, None), 0x232634);
}

#[test]
fn configured_colour_is_read_as_a_signed_number() {
    assert_eq!(embed_color(Some(0x7fff_ffff), None), i32::MAX);
    assert_eq!(embed_color(Some(0x8000_0000), None), i32::MIN);
    assert_eq!(embed_color(Some(0xffff_ffff), None), -1);
    assert_eq!(embed_color(Some(0xff00_00ff), None), 0xff00_00ffu32 as i32);
}

#[test]
fn project_is_asked_of_the_platform() {
    let request =
        project_request(&ModrinthUrl::new(&None), &"abc123".to_string(), "mrp_token".to_string());
    assert_eq!(request.method, Method::Get);
    assert_eq!(request.url, "https://api.modrinth.com/v2/project/abc123");
    assert_eq!(
        request.headers,
        vec![Header { name: "Authorization".to_string(), value: "mrp_token".to_string() }]
    );
    assert_eq!(request.body, Body::Empty);
}

#[test]
fn announcement_needs_its_configuration() {
    let present = Some(discord(None));
    assert_eq!(announcer_config(&present).unwrap(), &discord(None));
    let error = announcer_config(&None).unwrap_err();
    assert_eq!(error.kind, ErrorKind::DiscordConfigMissing);
    assert_eq!(error.message(), "Failed to get Discord config");
}

#[test]
fn project_kinds_are_formatted() {
    assert_eq!(ProjectType::Mod.formatted(), "Mod");
    assert_eq!(ProjectType::Plugin.formatted(), "Plugin");
    assert_eq!(ProjectType::Datapack.formatted(), "Data Pack");
    assert_eq!(ProjectType::Shader.formatted(), "Shader");
    assert_eq!(ProjectType::Resourcepack.formatted(), "Resource Pack");
    assert_eq!(ProjectType::Modpack.formatted(), "Modpack");
}
