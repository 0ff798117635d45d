//! Flatpak packaging backend: the staging layout, the manifest data and its
//! rendering, the ordered list of steps that builds and exports a single-file
//! bundle, and the driver that runs those steps one after the other.

pub mod driver;
pub mod error;
pub mod manifest;
pub mod paths;
pub mod plan;
pub mod settings;
