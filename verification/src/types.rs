//! Value types for the surface of a plugin.

pub mod files;
