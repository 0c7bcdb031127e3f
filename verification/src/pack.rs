//! The modpack's manifest and the archive that its build leaves.

use vstd::prelude::*;
use crate::error::{fails_with, ErrorKind, PeonyError};
use crate::models::project_type::modpack::PackFile;
use crate::models::util::{OutputFileInfo, TempInfo};
use crate::util::{file_name_of, file_name_text, join_path, joined_path};

verus! {

/// The manifest with `version` in place of its own version: what is built
/// when a run is given a version of its own.
pub fn with_version(pack_file: PackFile, version: String) -> (out: PackFile)
    ensures
        out == (PackFile { version, ..pack_file }),
{
    let mut out = pack_file;
    out.version = version;
    out
}

/// Where the manifest of the workspace `dir_path` lies.
pub fn pack_file_path(dir_path: &str) -> (out: String)
    ensures
        out@ == joined_path(dir_path@, "pack.toml"@),
{
    join_path(dir_path, "pack.toml")
}

/// The pattern that finds the archive of a modpack: every file directly in
/// the workspace whose name ends in `.mrpack`.
pub fn output_file_pattern(tmp_dir_info: &TempInfo) -> (out: String)
    ensures
        out@ == joined_path(tmp_dir_info.dir_path@, "*.mrpack"@),
{
    join_path(tmp_dir_info.dir_path.as_str(), "*.mrpack")
}

/// The archive of a modpack among `matches`, which is what the search with
/// [`output_file_pattern`] gave, in its order: for each match its path, or
/// the words of the failure to read it.
///
/// The first match is the archive, and the others are not looked at. It is a
/// failure if there is no match, if the first could not be read, or if its
/// path has no file name.
pub fn get_output_file(matches: &Vec<Result<String, String>>) -> (out: Result<
    OutputFileInfo,
    PeonyError,
>)
    ensures
        matches@.len() == 0 ==> fails_with(out, ErrorKind::ModpackMissing, Seq::empty()),
        matches@.len() > 0 ==> match matches@[0] {
            Err(words) => fails_with(out, ErrorKind::ModpackPath, words@),
            Ok(path) => match file_name_text(path@) {
                None => fails_with(out, ErrorKind::ModpackFileName, Seq::empty()),
                Some(name) => out matches Ok(info) && info.file_name@ == name && info.file_path@
                    == path@,
            },
        },
{
    if matches.len() == 0 {
        return Err(PeonyError::plain(ErrorKind::ModpackMissing));
    }
    let file_path = match &matches[0] {
        Ok(path) => path.clone(),
        Err(words) => return Err(PeonyError::new(ErrorKind::ModpackPath, words.clone())),
    };
    let file_name = match file_name_of(file_path.as_str()) {
        Some(name) => name,
        None => return Err(PeonyError::plain(ErrorKind::ModpackFileName)),
    };
    Ok(OutputFileInfo { file_name, file_path })
}

} // verus!
