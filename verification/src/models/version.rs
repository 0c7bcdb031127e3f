//! What both publish targets need to know of a modpack release.

use vstd::prelude::*;
use crate::models::modrinth::Loader;

verus! {

/// The derived facts of a modpack release: its loader, its display name and
/// the bytes of its archive.
#[derive(Debug, Clone, PartialEq, Eq)]
pub struct VersionInfo {
    pub loader: Loader,
    pub version_name: String,
    pub file_contents: Vec<u8>,
}

} // verus!
