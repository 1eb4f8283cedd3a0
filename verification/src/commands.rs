//! Commands that panels hand to the application's main loop.

use vstd::prelude::*;

use crate::ids::{ProjectId, SessionId, WorkspaceId};
use crate::model_overlay::types::ProfileSettingsInput;
use crate::plugin_overlay::types::InstallPluginRequest;
use crate::mcp_overlay::editor::{AddCatalogSourceRequest, InstallRequest, McpServerSettingsInput};

verus! {

/// A request from a panel for the main loop to carry out.
#[derive(Debug, PartialEq, Eq)]
pub enum Command {
    DecidePermission { request_id: String, approved: bool },
    TrustMcpServer { server_id: String },
    ArchiveSession { session_id: SessionId },
    RestoreSession { session_id: SessionId },
    DeleteSession { session_id: SessionId },
    RenameSession { session_id: SessionId, title: String },
    RemoveProject { project_id: ProjectId },
    MoveProject { project_id: ProjectId, direction: i32 },
    SetProjectExpanded { project_id: ProjectId, expanded: bool },
    CreateProjectDraftSession { project_id: ProjectId },
    CreateProjectWorktreeSession { project_id: ProjectId, branch_name: String },
    RefreshProjectGitStatus { project_id: ProjectId },
    InitProjectGit { project_id: ProjectId },
    ShowProjectInstructions { project_id: ProjectId },
    RenameProject { project_id: ProjectId, display_name: String },
    OpenMcpOverlay,
    InstallMcpServer { request: InstallRequest },
    SaveMcpServerSettings { input: McpServerSettingsInput },
    AddMcpCatalogSource { request: AddCatalogSourceRequest },
    StopMcpServer { server_id: String },
    StartMcpServer { server_id: String },
    RevokeMcpTrust { server_id: String },
    CheckMcpHealth { server_id: String },
    TestMcpConnectivity { server_id: String },
    RefreshMcpTools { server_id: String },
    SetMcpToolDisabled { server_id: String, tool_name: String, disabled: bool },
    ListMcpResources { server_id: String },
    ReadMcpResource { server_id: String, uri: String },
    ListMcpPrompts { server_id: String },
    SetMcpServerEnabled { server_id: String, enabled: bool },
    OpenMcpConfig,
    DisableMcpServerAtScope { server_id: String },
    EnableMcpServerAtScope { server_id: String },
    DeleteMcpServerSettings { server_id: String },
    UninstallMcpServer { server_id: String },
    SetMcpCatalogSourceEnabled { source_id: String, enabled: bool },
    RemoveMcpCatalogSource { source_id: String },
    SwitchModel { workspace_id: WorkspaceId, session_id: SessionId, alias: String, reasoning_effort: Option<String> },
    SetProfileEnabled { alias: String, enabled: bool },
    DeleteProfileSettings { alias: String },
    MoveProfileInOrder { alias: String, direction: i32 },
    TestModelProfile { alias: String },
    OpenProfilesConfig,
    TestModelProfileUrl { alias: String, base_url: String },
    SaveProfileSettings { input: ProfileSettingsInput },
    SetPluginEnabled { settings_id: String, enabled: bool },
    DeletePluginSettings { settings_id: String },
    InstallPlugin { request: InstallPluginRequest },
    SetPluginMarketplaceSourceEnabled { source_id: String, enabled: bool },
    OpenPluginsOverlay,
    MonitorStop { monitor_id: String },
    OpenMonitorOverlay,
    ShowSkill { skill_id: String },
    ActivateSkill { workspace_id: WorkspaceId, session_id: SessionId, skill_id: String },
    DeactivateSkill { workspace_id: WorkspaceId, session_id: SessionId, skill_id: String },
}

} // verus!
