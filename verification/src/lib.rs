//! Release automation for Minecraft modpacks and mods, without the I/O.
//!
//! A run builds an artifact, names the release, writes a changelog link,
//! publishes to a code host and to a mod platform, and may announce the
//! release through a chat webhook. This library holds every decision of such
//! a run and describes every request it sends; the program around it reads
//! files, runs the build tool and talks to the network.

pub mod discord;
pub mod error;
pub mod github;
pub mod http;
pub mod mc_mod;
pub mod models;
pub mod modrinth;
pub mod outside;
pub mod pack;
pub mod pipeline;
pub mod text;
pub mod tools;
pub mod util;
pub mod version;
