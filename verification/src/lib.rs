//! Core logic of a desktop wallpaper rotation utility.
//!
//! The library owns the configuration record and the rules of rotation:
//! applying defaults, switching the active directory, choosing a wallpaper
//! from a directory listing, and reporting the current selection. File I/O,
//! TOML (de)serialization, the desktop-settings command and the sleep between
//! cycles live outside the library and hand it plain values.

pub mod config;
pub mod laws;
pub mod select;
