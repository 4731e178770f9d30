//! Session layer of a modding toolset: configuration records, the session
//! state machine, the registry of named operations and the pure parts of the
//! asset operations.
pub mod cache;
pub mod config;
pub mod dirs;
pub mod encoding;
pub mod error;
pub mod images;
pub mod json;
pub mod mods;
pub mod operations;
pub mod params;
pub mod resources;
pub mod sounds;
pub mod state;
pub mod toolset;
