//! Client logic of a music player that talks to Jellyfin and Subsonic servers.

pub mod backend;
pub mod config;
pub mod foreign;
pub mod jellyfin;
pub mod number;
pub mod subsonic;
pub mod text;
pub mod ui;
