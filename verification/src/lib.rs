//! Command-building logic of a yt-dlp front end: download modes, the flag
//! registry, download presets, command construction and the state of a run.

pub mod text;
pub mod download_mode;
pub mod flags;
pub mod presets;
pub mod runner;
pub mod selection;
pub mod style;
