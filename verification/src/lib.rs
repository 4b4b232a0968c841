//! Core data model of a module bundler: a dense identifier map, a module
//! graph node with its edge sets and issuer bookkeeping, a source position
//! resolver for diagnostics, and a plugin hook driver that sequences build
//! phases over an ordered plugin list.

pub mod dispatch;
pub mod location;
pub mod module;
pub mod plugin;
pub mod plugin_driver;
pub mod text_pos;
pub mod vec_map;
