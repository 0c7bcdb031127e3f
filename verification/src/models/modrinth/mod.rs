//! The mod platform: its two sites, its loaders, and the small objects of its
//! project API.

use vstd::prelude::*;

pub mod project;
pub mod version;

verus! {

/// The addresses of the mod platform: `labrinth` is its API, `knossos` its
/// web site.
#[derive(Debug, Clone, PartialEq, Eq)]
pub struct ModrinthUrl {
    pub labrinth: String,
    pub knossos: String,
}

/// Whether a configuration asks for the staging site.
pub open spec fn is_staging(conf: Option<bool>) -> bool {
    conf == Some(true)
}

/// The address of the API, live or staging.
pub open spec fn labrinth_text(staging: bool) -> Seq<char> {
    if staging {
        "https://staging-api.modrinth.com/v2"@
    } else {
        "https://api.modrinth.com/v2"@
    }
}

/// The address of the web site, live or staging.
pub open spec fn knossos_text(staging: bool) -> Seq<char> {
    if staging {
        "https://staging.modrinth.com"@
    } else {
        "https://modrinth.com"@
    }
}

impl ModrinthUrl {
    /// The platform's addresses: those of the staging site if the
    /// configuration says `true`, else those of the live site.
    pub fn new(is_staging_conf: &Option<bool>) -> (out: Self)
        ensures
            out.labrinth@ == labrinth_text(is_staging(*is_staging_conf)),
            out.knossos@ == knossos_text(is_staging(*is_staging_conf)),
    {
        let knossos_url = match is_staging_conf {
            Some(true) => "https://staging.modrinth.com",
            _ => "https://modrinth.com",
        };
        let labrinth_url = match is_staging_conf {
            Some(true) => "https://staging-api.modrinth.com/v2",
            _ => "https://api.modrinth.com/v2",
        };
        Self { knossos: knossos_url.to_owned(), labrinth: labrinth_url.to_owned() }
    }
}

/// A mod loader.
#[derive(Debug, Clone, Copy, PartialEq, Eq, Structural)]
pub enum Loader {
    Quilt,
    Fabric,
    Neoforge,
    Forge,
    Liteloader,
}

impl Loader {
    /// The loader's name as it is shown to people.
    pub open spec fn formatted_text(self) -> Seq<char> {
        match self {
            Loader::Quilt => "Quilt"@,
            Loader::Fabric => "Fabric"@,
            Loader::Neoforge => "NeoForge"@,
            Loader::Forge => "Forge"@,
            Loader::Liteloader => "LiteLoader"@,
        }
    }

    /// The loader's name as it is shown to people.
    pub fn formatted(&self) -> (out: String)
        ensures
            out@ == self.formatted_text(),
    {
        match self {
            Self::Quilt => "Quilt",
            Self::Fabric => "Fabric",
            Self::Neoforge => "NeoForge",
            Self::Forge => "Forge",
            Self::Liteloader => "LiteLoader",
        }.to_owned()
    }
}

/// A way to give money to a project.
#[derive(Debug, Clone, PartialEq, Eq)]
pub struct DonationObject {
    pub id: String,
    pub platform: String,
    pub url: String,
}

/// A project's license.
#[derive(Debug, Clone, PartialEq, Eq)]
pub struct LicenseObject {
    pub id: String,
    pub name: String,
    pub url: Option<String>,
}

/// A picture in a project's gallery.
#[derive(Debug, Clone, PartialEq, Eq)]
pub struct GalleryObject {
    pub url: String,
    pub featured: bool,
    pub title: Option<String>,
    pub description: Option<String>,
    pub created: String,
    pub ordering: i32,
}

/// How a version relates to another project or version.
#[derive(Debug, Clone, Copy, PartialEq, Eq, Structural)]
pub enum DependencyType {
    Required,
    Optional,
    Incompatible,
    Embedded,
}

} // verus!
