//! MCP overlay: runtime servers, settings, installed entries, the catalog
//! and its sources, and the tools, resources and prompts of a server, with
//! the editors that create settings, sources and installs.

pub mod editor;
pub mod types;
pub mod state;
pub mod keys;
pub mod forms;
pub mod events;
pub mod view;
pub mod catalog_view;
pub mod list_view;
pub mod laws;
