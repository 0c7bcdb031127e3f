//! The mod platform's part of a mod's run configuration.

use vstd::prelude::*;
use crate::models::modrinth::version::VersionDependency;
use crate::models::modrinth::DependencyType;

verus! {

/// The project on the mod platform that receives a mod's version, and what
/// that version depends on.
#[derive(Debug, Clone, PartialEq, Eq)]
pub struct ModrinthConfig {
    pub project_id: String,
    /// Publish to the platform's staging site. Absent means no.
    pub staging: Option<bool>,
    /// The table `dependency` of the configuration file.
    pub dependencies: Option<Vec<ModrinthDependency>>,
}

/// A dependency as the configuration states it.
#[derive(Debug, Clone, PartialEq, Eq)]
pub struct ModrinthDependency {
    pub version_id: Option<String>,
    pub project_id: Option<String>,
    pub dependency_type: DependencyType,
}

impl From<VersionDependency> for ModrinthDependency {
    /// The configured dependency that a version's dependency stands for. The
    /// file name, if it had one, is dropped.
    fn from(dep: VersionDependency) -> (out: Self) {
        Self {
            version_id: dep.version_id,
            project_id: dep.project_id,
            dependency_type: dep.dependency_type,
        }
    }
}

impl vstd::std_specs::convert::FromSpecImpl<VersionDependency> for ModrinthDependency {
    open spec fn obeys_from_spec() -> bool {
        true
    }

    open spec fn from_spec(dep: VersionDependency) -> Self {
        ModrinthDependency {
            version_id: dep.version_id,
            project_id: dep.project_id,
            dependency_type: dep.dependency_type,
        }
    }
}

} // verus!
