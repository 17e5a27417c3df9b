//! Verified core of a Rust binding to the OBS Studio plugin API.

pub mod encoder;
pub mod frontend;
pub mod graphics;
pub mod hotkey;
pub mod linkage;
pub mod listing;
pub mod log;
pub mod media;
pub mod module;
pub mod native;
pub mod output;
pub mod properties;
pub mod service;
pub mod settings;
pub mod source;
pub mod version;
