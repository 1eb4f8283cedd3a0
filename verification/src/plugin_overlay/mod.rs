//! Plugin overlay: installed plugins, the plugin catalog and its marketplace
//! sources.

pub mod state;
pub mod types;
pub mod keys;
pub mod view;
pub mod laws;
