//! Adapter between a host shell's module-loading protocol and the builtins of
//! a plugin.

pub mod containment;
pub mod export_module;
pub mod fatal;
pub mod holder;
pub mod lifecycle;
pub mod marshal;
pub mod module;
pub mod types;
