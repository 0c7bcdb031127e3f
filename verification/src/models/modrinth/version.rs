//! The body of the request that creates a version on the mod platform.

use vstd::prelude::*;
use crate::models::modrinth::{DependencyType, Loader};
use crate::models::project_type::mc_mod::config::modrinth::ModrinthDependency;
use crate::text::{optional_text, texts};

verus! {

/// What the mod platform is told of a new version. The files themselves
/// travel beside it, each in a part of its own; `file_parts` names those
/// parts and `primary_file` the one that people download.
#[derive(Debug, Clone, PartialEq, Eq)]
pub struct VersionRequest {
    pub name: String,
    pub version_number: String,
    pub changelog: Option<String>,
    pub dependencies: Vec<VersionDependency>,
    pub game_versions: Vec<String>,
    pub version_type: VersionType,
    pub loaders: Vec<Loader>,
    pub featured: bool,
    pub requested_status: VersionStatus,
    pub project_id: String,
    pub file_parts: Vec<String>,
    pub primary_file: String,
}

/// A version request seen as plain values.
pub struct VersionRequestView {
    pub name: Seq<char>,
    pub version_number: Seq<char>,
    pub changelog: Option<Seq<char>>,
    pub dependencies: Seq<VersionDependencyView>,
    pub game_versions: Seq<Seq<char>>,
    pub version_type: VersionType,
    pub loaders: Seq<Loader>,
    pub featured: bool,
    pub requested_status: VersionStatus,
    pub project_id: Seq<char>,
    pub file_parts: Seq<Seq<char>>,
    pub primary_file: Seq<char>,
}

impl View for VersionRequest {
    type V = VersionRequestView;

    open spec fn view(&self) -> VersionRequestView {
        VersionRequestView {
            name: self.name@,
            version_number: self.version_number@,
            changelog: optional_text(self.changelog),
            dependencies: dependency_views(self.dependencies@),
            game_versions: texts(self.game_versions@),
            version_type: self.version_type,
            loaders: self.loaders@,
            featured: self.featured,
            requested_status: self.requested_status,
            project_id: self.project_id@,
            file_parts: texts(self.file_parts@),
            primary_file: self.primary_file@,
        }
    }
}

/// A dependency of a version.
#[derive(Debug, Clone, PartialEq, Eq)]
pub struct VersionDependency {
    pub version_id: Option<String>,
    pub project_id: Option<String>,
    pub file_name: Option<String>,
    pub dependency_type: DependencyType,
}

/// A dependency seen as plain values.
pub struct VersionDependencyView {
    pub version_id: Option<Seq<char>>,
    pub project_id: Option<Seq<char>>,
    pub file_name: Option<Seq<char>>,
    pub dependency_type: DependencyType,
}

impl View for VersionDependency {
    type V = VersionDependencyView;

    open spec fn view(&self) -> VersionDependencyView {
        VersionDependencyView {
            version_id: optional_text(self.version_id),
            project_id: optional_text(self.project_id),
            file_name: optional_text(self.file_name),
            dependency_type: self.dependency_type,
        }
    }
}

/// The dependencies of a list as plain values, in order.
pub open spec fn dependency_views(list: Seq<VersionDependency>) -> Seq<VersionDependencyView> {
    Seq::new(list.len(), |i: int| list[i]@)
}

/// The release channel of a version.
#[derive(Debug, Clone, Copy, PartialEq, Eq, Structural)]
pub enum VersionType {
    Release,
    Beta,
    Alpha,
}

/// The channel of a run: the one that was asked for, or `Release` where
/// none was.
pub fn release_channel(version_type: Option<VersionType>) -> (out: VersionType)
    ensures
        out == match version_type {
            Some(version_type) => version_type,
            None => VersionType::Release,
        },
{
    match version_type {
        Some(version_type) => version_type,
        None => VersionType::Release,
    }
}

/// The visibility that is asked for a version.
#[derive(Debug, Clone, Copy, PartialEq, Eq, Structural)]
pub enum VersionStatus {
    Listed,
    Archived,
    Draft,
    Unlisted,
}

impl From<ModrinthDependency> for VersionDependency {
    /// The dependency of a version that a configured dependency stands for.
    /// It names no file.
    fn from(dep: ModrinthDependency) -> (out: Self) {
        Self {
            version_id: dep.version_id,
            project_id: dep.project_id,
            file_name: None,
            dependency_type: dep.dependency_type,
        }
    }
}

impl vstd::std_specs::convert::FromSpecImpl<ModrinthDependency> for VersionDependency {
    open spec fn obeys_from_spec() -> bool {
        true
    }

    open spec fn from_spec(dep: ModrinthDependency) -> Self {
        VersionDependency {
            version_id: dep.version_id,
            project_id: dep.project_id,
            file_name: None,
            dependency_type: dep.dependency_type,
        }
    }
}

} // verus!
