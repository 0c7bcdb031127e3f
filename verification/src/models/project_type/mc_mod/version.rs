//! What both publish targets need to know of a mod release.

use vstd::prelude::*;
use crate::error::{fails_with, ErrorKind, PeonyError};
use crate::models::modrinth::Loader;
use crate::models::project_type::mc_mod::config::ModConfig;
use crate::models::project_type::mc_mod::{ModInfo, ModJars};
use crate::version::{format_loaders, loaders_text, version_name, version_name_text};

verus! {

/// The derived facts of a mod release: its display name, the mod's version,
/// its loaders, and the bytes of its jars.
#[derive(Debug, Clone, PartialEq, Eq)]
pub struct ModVersionInfo {
    pub name: String,
    pub version: String,
    pub loaders: Vec<Loader>,
    pub mod_file: ModFile,
    pub sources_file: Option<ModFile>,
}

/// A jar read into memory.
#[derive(Debug, Clone, PartialEq, Eq)]
pub struct ModFile {
    pub name: String,
    pub contents: Vec<u8>,
}

/// What stands for the mod's version in the release name: the configured
/// alias, or the version itself where there is none.
pub open spec fn project_version_text(config: ModConfig, mod_info: ModInfo) -> Seq<char> {
    match config.version_alias {
        Some(alias) => alias@,
        None => mod_info.version@,
    }
}

/// The name of a mod release: the configured template, filled with the mod's
/// name, what stands for its version, what stands for the game version, and
/// the names of the configured loaders with slashes between them.
pub open spec fn mod_version_name_text(config: ModConfig, mod_info: ModInfo) -> Seq<char> {
    version_name_text(
        config.version_name_format@,
        mod_info.name@,
        project_version_text(config, mod_info),
        config.mc_version_alias@,
        loaders_text(config.loaders@),
    )
}

/// `file` is the jar `name` with the bytes `contents`.
pub open spec fn is_mod_file(file: ModFile, name: Seq<char>, contents: Seq<u8>) -> bool {
    file.name@ == name && file.contents@ == contents
}

impl ModVersionInfo {
    /// The facts of a mod release. Each contents argument is what reading the
    /// jar gave: its bytes, or the words of the failure; that of the sources
    /// jar counts only if the build left a sources jar.
    ///
    /// A jar that could not be read is a failure, the mod's jar before the
    /// sources jar.
    pub fn new(
        config: &ModConfig,
        mod_jars: &ModJars,
        mod_info: &ModInfo,
        mod_jar_contents: Result<Vec<u8>, String>,
        sources_jar_contents: Option<Result<Vec<u8>, String>>,
    ) -> (out: Result<Self, PeonyError>)
        ensures
            match mod_jar_contents {
                Err(words) => fails_with(out, ErrorKind::FileRead, words@),
                Ok(mod_bytes) => match (mod_jars.sources_jar, sources_jar_contents) {
                    (Some(_), Some(Err(words))) => fails_with(out, ErrorKind::FileRead, words@),
                    (Some(jar), Some(Ok(bytes))) => {
                        &&& out matches Ok(info)
                        &&& info.name@ == mod_version_name_text(*config, *mod_info)
                        &&& info.version@ == mod_info.version@
                        &&& info.loaders@ == config.loaders@
                        &&& is_mod_file(info.mod_file, mod_jars.mod_jar.file_name@, mod_bytes@)
                        &&& info.sources_file matches Some(file)
                        &&& is_mod_file(file, jar.file_name@, bytes@)
                    },
                    _ => {
                        &&& out matches Ok(info)
                        &&& info.name@ == mod_version_name_text(*config, *mod_info)
                        &&& info.version@ == mod_info.version@
                        &&& info.loaders@ == config.loaders@
                        &&& is_mod_file(info.mod_file, mod_jars.mod_jar.file_name@, mod_bytes@)
                        &&& info.sources_file is None
                    },
                },
            },
    {
        let mod_jar_contents = match mod_jar_contents {
            Ok(bytes) => bytes,
            Err(words) => return Err(PeonyError::new(ErrorKind::FileRead, words)),
        };
        let sources_jar_info = match (&mod_jars.sources_jar, sources_jar_contents) {
            (Some(jar), Some(Ok(contents))) => Some(
                ModFile { name: jar.file_name.clone(), contents },
            ),
            (Some(_), Some(Err(words))) => {
                return Err(PeonyError::new(ErrorKind::FileRead, words));
            },
            _ => None,
        };
        let mod_jar_info = ModFile {
            name: mod_jars.mod_jar.file_name.clone(),
            contents: mod_jar_contents,
        };
        let loaders = config.loaders.clone();
        let loaders_formatted = format_loaders(&loaders);
        let project_version = match &config.version_alias {
            Some(alias) => alias,
            None => &mod_info.version,
        };
        let version_name = version_name(
            config.version_name_format.as_str(),
            mod_info.name.as_str(),
            project_version.as_str(),
            config.mc_version_alias.as_str(),
            loaders_formatted.as_str(),
        );
        Ok(
            Self {
                name: version_name,
                version: mod_info.version.clone(),
                loaders,
                mod_file: mod_jar_info,
                sources_file: sources_jar_info,
            },
        )
    }
}

} // verus!
