//! Roblox rich presence for Discord: configuration merging, launch-URL parsing
//! and building, and the decisions taken while a game session is watched.

pub mod codecs;
pub mod launch;
pub mod models;
pub mod presence;
pub mod roblox;
pub mod session;
pub mod text;
