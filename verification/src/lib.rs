use vstd::prelude::*;

pub mod commands;
pub mod context;
pub mod effects;
pub mod ids;
pub mod keys;
pub mod mcp_overlay;
pub mod model_overlay;
pub mod monitor_overlay;
pub mod permission_modal;
pub mod permission_view;
pub mod plugin_overlay;
pub mod selection;
pub mod sessions;
pub mod skills_overlay;
pub mod styled;
pub mod text;
pub mod text_map;

verus! {

/// Which panel currently owns keyboard focus.
#[derive(Debug, Clone, Copy, PartialEq, Eq, Structural)]
pub enum FocusTarget {
    Chat,
    Sessions,
    Trace,
    PermissionModal,
    McpOverlay,
    CommandPalette,
    SkillsOverlay,
    ModelOverlay,
    AgentOverlay,
    PluginOverlay,
    HooksOverlay,
    InstructionsOverlay,
}

} // verus!
