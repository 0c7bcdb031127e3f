//! The two kinds of project that can be released.

pub mod mc_mod;
pub mod modpack;
