//! The workspace of a run and the archive that a modpack build leaves in it.
//! Paths are text with `/` between their parts.

use vstd::prelude::*;

verus! {

/// The temporary copy of the project in which the build runs.
#[derive(Debug, Clone, PartialEq, Eq)]
pub struct TempInfo {
    pub dir_name: String,
    pub dir_path: String,
}

/// The archive that the modpack build produced.
#[derive(Debug, Clone, PartialEq, Eq)]
pub struct OutputFileInfo {
    pub file_name: String,
    pub file_path: String,
}

} // verus!
