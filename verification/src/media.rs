//! Audio and video format definitions.

pub mod audio;
pub mod video;
pub mod state;
