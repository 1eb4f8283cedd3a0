//! Effects that one panel sends to others through the application.

use vstd::prelude::*;

use crate::mcp_overlay::types::{
    McpConnectivityEntry, McpOverlaySnapshot, McpPromptEntry, McpResourceEntry, McpToolEntry,
};
use crate::model_overlay::types::{ModelOverlaySnapshot, ModelProfileTestResult};
use crate::monitor_overlay::MonitorOverlaySnapshot;
use crate::permission_modal::PermissionRequest;
use crate::skills_overlay::SkillEntry;
use crate::plugin_overlay::types::PluginOverlaySnapshot;

verus! {

/// A message routed between panels.
#[derive(Debug, PartialEq, Eq)]
pub enum CrossPanelEffect {
    ShowPermissionPrompt(PermissionRequest),
    ResolvePermissionPrompt { request_id: String, approved: bool },
    DismissPermissionPrompt,
    ShowMcpOverlay(McpOverlaySnapshot),
    DismissMcpOverlay,
    McpToolsLoaded { server_id: String, tools: Vec<McpToolEntry>, healthy: bool, error: Option<String> },
    McpConnectivityChecked(McpConnectivityEntry),
    McpResourcesLoaded { server_id: String, resources: Vec<McpResourceEntry> },
    McpPromptsLoaded { server_id: String, prompts: Vec<McpPromptEntry> },
    McpResourceRead { server_id: String, uri: String, preview: String },
    ShowModelOverlay(ModelOverlaySnapshot),
    DismissModelOverlay,
    ModelProfileTested(ModelProfileTestResult),
    ShowPluginsOverlay(PluginOverlaySnapshot),
    DismissPluginsOverlay,
    ShowMonitorOverlay(MonitorOverlaySnapshot),
    DismissMonitorOverlay,
    ShowSkillsOverlay(Vec<SkillEntry>),
    DismissSkillsOverlay,
    ShowSkillBody { skill_id: String, body: String },
}

} // verus!
