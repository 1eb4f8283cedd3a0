use agent_tui::mcp_overlay::list_view::{installed_row_line, setting_row_line, source_row_line};
use agent_tui::mcp_overlay::list_view::{prompt_row_line, resource_row_line, tool_row_line};
use agent_tui::mcp_overlay::list_view::{catalog_row_line, trust_tone};
use agent_tui::mcp_overlay::catalog_view::{
        detail_head_lines, install_lines, requirement_lines, CatalogRequirement, InstallSpecSummary,
    };
use agent_tui::mcp_overlay::view::tab_bar_line;
use agent_tui::commands::Command;
use agent_tui::context::EventContext;
use agent_tui::effects::CrossPanelEffect;
use agent_tui::ids::WorkspaceId;
use agent_tui::keys::{KeyCode, KeyInput};
use agent_tui::mcp_overlay::catalog_view::{
    config_heading, config_item_description, config_item_meta, install_status_detail,
    install_status_list_label,
};
use agent_tui::mcp_overlay::editor::{
    config_items_from, CatalogConfigItem, EnvVarSpec, McpServerSettingsTransport,
};
use agent_tui::mcp_overlay::state::McpOverlay;
use agent_tui::mcp_overlay::types::{
    CatalogInstallStatus, CatalogSourceView, InstalledEntry, McpOverlayMode, McpOverlaySnapshot,
    McpPromptEntry, McpResourceEntry, McpServerEntry, McpServerSettingsView, McpServerStatusView,
    McpToolEntry, ServerEntry,
};
use agent_tui::mcp_overlay::view::runtime_row_line;
use agent_tui::styled::Tone;
use agent_tui::FocusTarget;

fn entry(id: &str, status: McpServerStatusView, trusted: bool, tools: usize) -> McpServerEntry {
    McpServerEntry {
        server_id: id.to_string(),
        status,
        trusted,
        tool_count: tools,
    }
}

fn setting(id: &str, enabled: bool) -> McpServerSettingsView {
    McpServerSettingsView {
        id: id.to_string(),
        name: id.to_string(),
        transport: "stdio".to_string(),
        enabled,
        runtime_status: "stopped".to_string(),
        trusted: false,
        tool_count: Some(2),
        last_error: None,
        writable: true,
        config_path: Some("/tmp/kairox/config.toml".to_string()),
        description: Some(format!("{id} settings")),
        source: "user".to_string(),
        verified: false,
        diagnostic_summary: String::new(),
    }
}

fn installed(id: &str, running: bool) -> InstalledEntry {
    InstalledEntry {
        server_id: id.to_string(),
        catalog_id: Some(format!("{id}-catalog")),
        source: Some("builtin".to_string()),
        display_name: id.to_string(),
        installed_at: "2026-05-21T00:00:00Z".to_string(),
        running,
    }
}

fn catalog_entry(id: &str, source: &str) -> ServerEntry {
    ServerEntry {
        id: id.to_string(),
        source: source.to_string(),
        display_name: format!("{id} MCP"),
        summary: format!("{id} summary"),
        description: format!("{id} description"),
        categories: vec!["dev".to_string()],
        tags: vec!["local".to_string()],
        author: Some("Kairox".to_string()),
        homepage: None,
        version: Some("1.0.0".to_string()),
        trust: "verified".to_string(),
        verified: true,
        icon: None,
        install_spec_json: "{}".to_string(),
        requirements_json: "[]".to_string(),
        default_env_json: "[]".to_string(),
        config_items: Vec::new(),
    }
}

fn source(id: &str, enabled: bool) -> CatalogSourceView {
    CatalogSourceView {
        id: id.to_string(),
        display_name: id.to_string(),
        kind: "mcp_registry".to_string(),
        url: format!("https://example.com/{id}"),
        api_key_env: None,
        priority: 10,
        default_trust: "community".to_string(),
        enabled,
        cache_ttl_seconds: Some(300),
        last_error: None,
    }
}

fn tool(name: &str, disabled: bool) -> McpToolEntry {
    McpToolEntry {
        server_id: "alpha".to_string(),
        name: name.to_string(),
        description: Some(format!("{name} tool")),
        input_schema: None,
        disabled,
    }
}

fn resource(uri: &str) -> McpResourceEntry {
    McpResourceEntry {
        server_id: "alpha".to_string(),
        uri: uri.to_string(),
        name: "App log".to_string(),
        description: Some("Application log".to_string()),
        mime_type: Some("text/plain".to_string()),
    }
}

fn prompt(name: &str) -> McpPromptEntry {
    McpPromptEntry {
        server_id: "alpha".to_string(),
        name: name.to_string(),
        description: Some(format!("{name} prompt")),
        argument_count: 2,
    }
}

fn env_spec(key: &str, label: &str, description: &str, required: bool, secret: bool, default: Option<&str>) -> EnvVarSpec {
    EnvVarSpec {
        key: key.to_string(),
        label: label.to_string(),
        description: description.to_string(),
        required,
        secret,
        default: default.map(|d| d.to_string()),
    }
}

fn press(overlay: &mut McpOverlay, code: KeyCode) -> (Vec<CrossPanelEffect>, Vec<Command>) {
    let ws = WorkspaceId::from_string("ws".to_string());
    let sid = None;
    let ctx = EventContext {
        focus: FocusTarget::McpOverlay,
        projects: &[],
        sessions: &[],
        model_profile: "fake",
        sidebar_left_visible: true,
        sidebar_right_visible: true,
        workspace_id: &ws,
        current_session_id: &sid,
    };
    overlay.handle_event(&ctx, KeyInput::plain(code))
}

fn advance_tabs(overlay: &mut McpOverlay, count: usize) {
    for _ in 0..count {
        let _ = press(overlay, KeyCode::Tab);
    }
}

fn type_text(overlay: &mut McpOverlay, text: &str) {
    for ch in text.chars() {
        let _ = press(overlay, KeyCode::Char(ch));
    }
}

fn snapshot() -> McpOverlaySnapshot {
    McpOverlaySnapshot {
        runtime_servers: vec![
            entry("alpha", McpServerStatusView::Running, true, 3),
            entry("beta", McpServerStatusView::Stopped, false, 0),
        ],
        settings: vec![setting("alpha", true), setting("beta", false)],
        installed: vec![installed("alpha", true)],
        catalog: vec![catalog_entry("filesystem", "builtin")],
        sources: vec![source("registry", true)],
    }
}

fn runtime_snapshot(runtime_servers: Vec<McpServerEntry>) -> McpOverlaySnapshot {
    McpOverlaySnapshot {
        runtime_servers,
        settings: Vec::new(),
        installed: Vec::new(),
        catalog: Vec::new(),
        sources: Vec::new(),
    }
}

fn runtime_row_text(overlay: &McpOverlay, index: usize) -> String {
    runtime_row_line(overlay, &overlay.servers()[index])
        .iter()
        .map(|s| s.text.clone())
        .collect()
}

fn overlay_invisible_by_default() {
    let overlay = McpOverlay::new();
    assert!(!overlay.is_visible());
    assert!(overlay.servers().is_empty());
}

fn case_renders_server_list_from_runtime() {
    let mut overlay = McpOverlay::new();
    overlay.show(runtime_snapshot(vec![
        entry("alpha", McpServerStatusView::Running, true, 3),
        entry("beta", McpServerStatusView::Stopped, false, 0),
    ]));
    assert!(overlay.is_visible());
    assert_eq!(overlay.servers().len(), 2);
    assert_eq!(overlay.selected_index(), Some(0));
    assert_eq!(runtime_row_text(&overlay, 0), "running   alpha  tools:3 trusted");
    assert_eq!(runtime_row_text(&overlay, 1), "stopped   beta  tools:0");
}

fn case_j_and_k_navigate_selection() {
    let mut overlay = McpOverlay::new();
    overlay.show(runtime_snapshot(vec![
        entry("alpha", McpServerStatusView::Running, false, 1),
        entry("beta", McpServerStatusView::Stopped, false, 0),
        entry("gamma", McpServerStatusView::Failed, false, 0),
    ]));
    let _ = press(&mut overlay, KeyCode::Char('j'));
    assert_eq!(overlay.selected_index(), Some(1));
    let _ = press(&mut overlay, KeyCode::Char('j'));
    assert_eq!(overlay.selected_index(), Some(2));
    let _ = press(&mut overlay, KeyCode::Down);
    assert_eq!(overlay.selected_index(), Some(2));
    let _ = press(&mut overlay, KeyCode::Char('k'));
    assert_eq!(overlay.selected_index(), Some(1));
    let _ = press(&mut overlay, KeyCode::Up);
    assert_eq!(overlay.selected_index(), Some(0));
    let _ = press(&mut overlay, KeyCode::Char('k'));
    assert_eq!(overlay.selected_index(), Some(0));
}

fn case_enter_starts_stopped_server() {
    let mut overlay = McpOverlay::new();
    overlay.show(runtime_snapshot(vec![entry("beta", McpServerStatusView::Stopped, false, 0)]));
    let (_, commands) = press(&mut overlay, KeyCode::Enter);
    assert_eq!(commands.len(), 1);
    assert!(matches!(
        &commands[0],
        Command::StartMcpServer { server_id } if server_id == "beta"
    ));
}

fn case_enter_stops_running_server() {
    let mut overlay = McpOverlay::new();
    overlay.show(runtime_snapshot(vec![entry("alpha", McpServerStatusView::Running, true, 5)]));
    let (_, commands) = press(&mut overlay, KeyCode::Enter);
    assert_eq!(commands.len(), 1);
    assert!(matches!(
        &commands[0],
        Command::StopMcpServer { server_id } if server_id == "alpha"
    ));
}

fn case_enter_starts_failed_server() {
    let mut overlay = McpOverlay::new();
    overlay.show(runtime_snapshot(vec![entry("crash", McpServerStatusView::Failed, false, 0)]));
    let (_, commands) = press(&mut overlay, KeyCode::Enter);
    assert!(matches!(
        &commands[0],
        Command::StartMcpServer { server_id } if server_id == "crash"
    ));
}

fn case_t_emits_trust_command_for_selected_server() {
    let mut overlay = McpOverlay::new();
    overlay.show(runtime_snapshot(vec![
        entry("alpha", McpServerStatusView::Running, false, 1),
        entry("beta", McpServerStatusView::Running, false, 1),
    ]));
    let _ = press(&mut overlay, KeyCode::Char('j'));
    let (_, commands) = press(&mut overlay, KeyCode::Char('t'));
    assert!(matches!(
        &commands[0],
        Command::TrustMcpServer { server_id } if server_id == "beta"
    ));
}

fn case_t_emits_revoke_command_for_trusted_server() {
    let mut overlay = McpOverlay::new();
    overlay.show(runtime_snapshot(vec![entry("alpha", McpServerStatusView::Running, true, 1)]));
    let (_, commands) = press(&mut overlay, KeyCode::Char('t'));
    assert!(matches!(
        &commands[..],
        [Command::RevokeMcpTrust { server_id }] if server_id == "alpha"
    ));
}

fn case_r_emits_refresh_tools_command() {
    let mut overlay = McpOverlay::new();
    overlay.show(runtime_snapshot(vec![entry("alpha", McpServerStatusView::Running, false, 1)]));
    let (_, commands) = press(&mut overlay, KeyCode::Char('r'));
    assert!(matches!(
        &commands[0],
        Command::RefreshMcpTools { server_id } if server_id == "alpha"
    ));
}

fn case_runtime_tab_emits_health_and_connectivity_commands() {
    let mut overlay = McpOverlay::new();
    overlay.show(runtime_snapshot(vec![entry("alpha", McpServerStatusView::Running, false, 1)]));

    let (_, health_commands) = press(&mut overlay, KeyCode::Char('h'));
    assert!(matches!(
        &health_commands[..],
        [Command::CheckMcpHealth { server_id }] if server_id == "alpha"
    ));

    let (_, connectivity_commands) = press(&mut overlay, KeyCode::Char('c'));
    assert!(matches!(
        &connectivity_commands[..],
        [Command::TestMcpConnectivity { server_id }] if server_id == "alpha"
    ));
}

fn case_tools_tab_toggles_selected_tool_disabled_state() {
    let mut overlay = McpOverlay::new();
    overlay.show(runtime_snapshot(vec![entry("alpha", McpServerStatusView::Running, false, 2)]));
    overlay.handle_effect(CrossPanelEffect::McpToolsLoaded {
        server_id: "alpha".to_string(),
        tools: vec![tool("search", false), tool("write", true)],
        healthy: true,
        error: None,
    });
    advance_tabs(&mut overlay, 5);

    let _ = press(&mut overlay, KeyCode::Char('j'));
    let (_, commands) = press(&mut overlay, KeyCode::Char('e'));
    assert!(matches!(
        &commands[..],
        [Command::SetMcpToolDisabled {
            server_id,
            tool_name,
            disabled,
        }] if server_id == "alpha" && tool_name == "write" && !disabled
    ));
}

fn case_resources_tab_lists_and_reads_selected_resource() {
    let mut overlay = McpOverlay::new();
    overlay.show(runtime_snapshot(vec![entry("alpha", McpServerStatusView::Running, false, 1)]));
    advance_tabs(&mut overlay, 6);

    let (_, list_commands) = press(&mut overlay, KeyCode::Char('r'));
    assert!(matches!(
        &list_commands[..],
        [Command::ListMcpResources { server_id }] if server_id == "alpha"
    ));

    overlay.handle_effect(CrossPanelEffect::McpResourcesLoaded {
        server_id: "alpha".to_string(),
        resources: vec![resource("file://logs/app.log")],
    });
    let (_, read_commands) = press(&mut overlay, KeyCode::Enter);
    assert!(matches!(
        &read_commands[..],
        [Command::ReadMcpResource { server_id, uri }]
            if server_id == "alpha" && uri == "file://logs/app.log"
    ));
}

fn case_prompts_tab_lists_prompts_for_selected_runtime_server() {
    let mut overlay = McpOverlay::new();
    overlay.show(runtime_snapshot(vec![entry("alpha", McpServerStatusView::Running, false, 1)]));
    advance_tabs(&mut overlay, 7);

    let (_, commands) = press(&mut overlay, KeyCode::Char('r'));
    assert!(matches!(
        &commands[..],
        [Command::ListMcpPrompts { server_id }] if server_id == "alpha"
    ));

    overlay.handle_effect(CrossPanelEffect::McpPromptsLoaded {
        server_id: "alpha".to_string(),
        prompts: vec![prompt("summarize")],
    });
    assert_eq!(overlay.selected_index(), Some(0));
}

fn esc_hides_and_emits_dismiss_effect() {
    let mut overlay = McpOverlay::new();
    overlay.show(runtime_snapshot(vec![entry("alpha", McpServerStatusView::Running, false, 1)]));
    let (effects, commands) = press(&mut overlay, KeyCode::Esc);
    assert!(commands.is_empty());
    assert!(effects.contains(&CrossPanelEffect::DismissMcpOverlay));
    assert!(!overlay.is_visible());
}

fn ignores_keys_when_hidden() {
    let mut overlay = McpOverlay::new();
    let (effects, commands) = press(&mut overlay, KeyCode::Enter);
    assert!(effects.is_empty());
    assert!(commands.is_empty());
}

fn show_effect_makes_visible() {
    let mut overlay = McpOverlay::new();
    overlay.handle_effect(CrossPanelEffect::ShowMcpOverlay(runtime_snapshot(vec![entry(
        "alpha",
        McpServerStatusView::Running,
        false,
        1,
    )])));
    assert!(overlay.is_visible());
    assert_eq!(overlay.servers().len(), 1);
}

fn case_enter_with_no_servers_emits_nothing() {
    let mut overlay = McpOverlay::new();
    overlay.show(runtime_snapshot(Vec::new()));
    let (effects, commands) = press(&mut overlay, KeyCode::Enter);
    assert!(effects.is_empty());
    assert!(commands.is_empty());
}

fn case_tabs_preserve_independent_selection() {
    let mut overlay = McpOverlay::new();
    overlay.show(snapshot());

    let _ = press(&mut overlay, KeyCode::Char('j'));
    assert_eq!(overlay.selected_index(), Some(1));

    let _ = press(&mut overlay, KeyCode::Tab);
    assert_eq!(overlay.selected_index(), Some(0));
    let _ = press(&mut overlay, KeyCode::Char('j'));
    assert_eq!(overlay.selected_index(), Some(1));

    let _ = press(&mut overlay, KeyCode::BackTab);
    assert_eq!(overlay.selected_index(), Some(1));
}

fn case_settings_tab_emits_enable_and_delete_commands() {
    let mut overlay = McpOverlay::new();
    overlay.show(snapshot());
    let _ = press(&mut overlay, KeyCode::Tab);

    let (_, enable_commands) = press(&mut overlay, KeyCode::Char('e'));
    assert!(matches!(
        &enable_commands[..],
        [Command::SetMcpServerEnabled { server_id, enabled }]
            if server_id == "alpha" && !enabled
    ));

    let (_, delete_commands) = press(&mut overlay, KeyCode::Char('x'));
    assert!(matches!(
        &delete_commands[..],
        [Command::DeleteMcpServerSettings { server_id }] if server_id == "alpha"
    ));
}

fn case_settings_tab_opens_config_and_updates_project_scope_disablement() {
    let mut overlay = McpOverlay::new();
    overlay.show(snapshot());
    let _ = press(&mut overlay, KeyCode::Tab);

    let (_, open_commands) = press(&mut overlay, KeyCode::Char('o'));
    assert!(matches!(&open_commands[..], [Command::OpenMcpConfig]));

    let (_, disable_commands) = press(&mut overlay, KeyCode::Char('d'));
    assert!(matches!(
        &disable_commands[..],
        [Command::DisableMcpServerAtScope { server_id }] if server_id == "alpha"
    ));

    let (_, enable_commands) = press(&mut overlay, KeyCode::Char('a'));
    assert!(matches!(
        &enable_commands[..],
        [Command::EnableMcpServerAtScope { server_id }] if server_id == "alpha"
    ));
}

fn case_settings_tab_server_editor_saves_new_stdio_server() {
    let mut overlay = McpOverlay::new();
    overlay.show(snapshot());
    let _ = press(&mut overlay, KeyCode::Tab);

    let (_, commands) = press(&mut overlay, KeyCode::Char('n'));
    assert!(commands.is_empty());
    type_text(&mut overlay, "gamma");
    let _ = press(&mut overlay, KeyCode::Tab);
    let _ = press(&mut overlay, KeyCode::Tab);
    type_text(&mut overlay, "npx");
    let _ = press(&mut overlay, KeyCode::Tab);
    type_text(&mut overlay, "-y @modelcontextprotocol/server-filesystem");
    let (_, commands) = press(&mut overlay, KeyCode::Enter);

    assert!(matches!(
        &commands[..],
        [Command::SaveMcpServerSettings { input }]
            if input.name == "gamma"
                && input.enabled
                && input.description.is_none()
                && matches!(
                    &input.transport,
                    McpServerSettingsTransport::Stdio { command, args, env }
                        if command == "npx"
                            && args.as_slice() == [
                                "-y".to_string(),
                                "@modelcontextprotocol/server-filesystem".to_string()
                            ]
                            && env.is_empty()
                )
    ));
}

fn case_settings_tab_enter_edits_selected_server() {
    let mut overlay = McpOverlay::new();
    overlay.show(snapshot());
    let _ = press(&mut overlay, KeyCode::Tab);

    let (_, commands) = press(&mut overlay, KeyCode::Enter);
    assert!(commands.is_empty());

    assert_eq!(overlay.mode, McpOverlayMode::ServerEditor);
    assert_eq!(overlay.server_draft.name, "alpha");
}

fn case_catalog_and_installed_tabs_emit_install_uninstall_commands() {
    let mut overlay = McpOverlay::new();
    overlay.show(snapshot());

    let _ = press(&mut overlay, KeyCode::Tab);
    let _ = press(&mut overlay, KeyCode::Tab);
    let (_, uninstall_commands) = press(&mut overlay, KeyCode::Char('x'));
    assert!(matches!(
        &uninstall_commands[..],
        [Command::UninstallMcpServer { server_id }] if server_id == "alpha"
    ));

    let _ = press(&mut overlay, KeyCode::Tab);
    let (_, install_commands) = press(&mut overlay, KeyCode::Char('i'));
    assert!(matches!(
        &install_commands[..],
        [Command::InstallMcpServer { request }]
            if request.catalog_id == "filesystem"
                && request.source == "builtin"
                && request.server_id_override.is_none()
                && request.env_overrides.is_empty()
                && request.auto_start
                && !request.trust_grant
    ));
}

fn case_catalog_install_renders_in_flight_status_after_command_emission() {
    let mut overlay = McpOverlay::new();
    overlay.show(snapshot());
    advance_tabs(&mut overlay, 3);

    let (_, install_commands) = press(&mut overlay, KeyCode::Char('i'));
    assert!(matches!(
        &install_commands[..],
        [Command::InstallMcpServer { request }]
            if request.catalog_id == "filesystem" && request.source == "builtin"
    ));

    let entry = overlay.selected_catalog_entry().expect("selected entry");
    let status = overlay.install_status_for_entry(entry).expect("install status");
    assert_eq!(status, &CatalogInstallStatus::Installing);
    let (detail, tone) = install_status_detail(status);
    assert_eq!(format!("install status: {detail}"), "install status: installing");
    assert_eq!(tone, Tone::Yellow);
}

fn case_catalog_install_config_editor_collects_required_overrides() {
    let mut entry = catalog_entry("github", "registry");
    entry.install_spec_json = r#"{"transport":"sse","url":"https://mcp.example.com/sse","headers":{"Authorization":"Bearer ${Authorization}"}}"#.to_string();
    entry.config_items = config_items_from(
        &[
            env_spec("Authorization", "Authorization", "Bearer token", true, true, None),
            env_spec("GITHUB_ORG", "GitHub org", "Organization", true, false, None),
        ],
        &["Authorization".to_string()],
    );

    let mut overlay = McpOverlay::new();
    overlay.show(McpOverlaySnapshot {
        runtime_servers: Vec::new(),
        settings: Vec::new(),
        installed: Vec::new(),
        catalog: vec![entry],
        sources: vec![source("registry", true)],
    });
    advance_tabs(&mut overlay, 3);

    let (_, commands) = press(&mut overlay, KeyCode::Char('i'));
    assert!(
        commands.is_empty(),
        "expected install config editor before command emission, got {commands:?}"
    );
    assert_eq!(overlay.mode, McpOverlayMode::CatalogInstallConfig);
    let keys: Vec<&str> = overlay
        .catalog_install_draft
        .items
        .iter()
        .map(|item| item.key.as_str())
        .collect();
    assert!(keys.contains(&"Authorization"));
    assert!(keys.contains(&"GITHUB_ORG"));

    type_text(&mut overlay, "Bearer test-token");
    let _ = press(&mut overlay, KeyCode::Tab);
    type_text(&mut overlay, "kairox-dev");
    let (_, commands) = press(&mut overlay, KeyCode::Enter);

    assert!(matches!(
        &commands[..],
        [Command::InstallMcpServer { request }]
            if request.catalog_id == "github"
                && request.source == "registry"
                && request.server_id_override.is_none()
                && request.env_overrides.len() == 2
                && request.env_overrides.get("Authorization").map(|v| v.as_str()) == Some("Bearer test-token")
                && request.env_overrides.get("GITHUB_ORG").map(|v| v.as_str()) == Some("kairox-dev")
                && request.auto_start
                && !request.trust_grant
    ));
}

fn case_catalog_tab_filters_by_keyword_trust_and_enabled_source() {
    let mut filesystem = catalog_entry("filesystem", "builtin");
    filesystem.summary = "Browse local files".to_string();

    let mut slack = catalog_entry("slack", "registry");
    slack.summary = "Search Slack messages".to_string();
    slack.tags = vec!["chat".to_string()];
    slack.trust = "community".to_string();
    slack.verified = false;

    let mut risky = catalog_entry("risky", "corp");
    risky.summary = "Internal unverified tool".to_string();
    risky.trust = "unverified".to_string();
    risky.verified = false;

    let mut registry = source("registry", true);
    registry.default_trust = "verified".to_string();
    let disabled_corp = source("corp", false);

    let mut overlay = McpOverlay::new();
    overlay.show(McpOverlaySnapshot {
        runtime_servers: Vec::new(),
        settings: Vec::new(),
        installed: Vec::new(),
        catalog: vec![filesystem, slack, risky],
        sources: vec![registry, disabled_corp],
    });
    advance_tabs(&mut overlay, 3);

    assert_eq!(overlay.current_len(), 2);

    let _ = press(&mut overlay, KeyCode::Char('t'));
    assert_eq!(overlay.current_len(), 2);

    let _ = press(&mut overlay, KeyCode::Char('/'));
    type_text(&mut overlay, "slack");
    let _ = press(&mut overlay, KeyCode::Enter);

    assert_eq!(overlay.current_len(), 1);
    assert_eq!(
        overlay.selected_catalog_entry().map(|entry| entry.id.as_str()),
        Some("slack")
    );

    let _ = press(&mut overlay, KeyCode::Char('t'));
    assert_eq!(overlay.current_len(), 0);
    assert!(overlay.selected_catalog_entry().is_none());
}

fn case_catalog_tab_renders_detail_metadata_for_selected_entry() {
    let items = config_items_from(
        &[
            env_spec("Authorization", "Authorization", "Bearer token", true, true, None),
            env_spec("OPTIONAL_MODE", "Mode", "Optional mode", false, false, Some("read")),
        ],
        &["Authorization".to_string()],
    );
    let auth = items.iter().find(|i| i.key == "Authorization").expect("auth item");
    let mode = items.iter().find(|i| i.key == "OPTIONAL_MODE").expect("mode item");
    assert_eq!(config_item_meta(auth), "HTTP header required secret");
    assert_eq!(config_item_meta(mode), "env optional default:read");
    assert_eq!(config_item_description(mode), " - Optional mode");
    let (count, required, tone) = config_heading(&items);
    assert_eq!(count, " 2 items");
    assert_eq!(required, " required:1");
    assert_eq!(tone, Tone::Yellow);
}

fn case_sources_tab_emits_source_enable_command() {
    let mut overlay = McpOverlay::new();
    overlay.show(snapshot());
    advance_tabs(&mut overlay, 4);

    let (_, commands) = press(&mut overlay, KeyCode::Char('e'));
    assert!(matches!(
        &commands[..],
        [Command::SetMcpCatalogSourceEnabled { source_id, enabled }]
            if source_id == "registry" && !enabled
    ));
}

fn case_sources_tab_adds_and_removes_catalog_sources() {
    let mut overlay = McpOverlay::new();
    overlay.show(snapshot());
    advance_tabs(&mut overlay, 4);

    let (_, remove_commands) = press(&mut overlay, KeyCode::Char('x'));
    assert!(matches!(
        &remove_commands[..],
        [Command::RemoveMcpCatalogSource { source_id }] if source_id == "registry"
    ));

    let (_, commands) = press(&mut overlay, KeyCode::Char('n'));
    assert!(commands.is_empty());
    type_text(&mut overlay, "corp");
    let _ = press(&mut overlay, KeyCode::Tab);
    type_text(&mut overlay, "Corporate Registry");
    let _ = press(&mut overlay, KeyCode::Tab);
    type_text(&mut overlay, "https://registry.example.com/catalog.json");
    let (_, add_commands) = press(&mut overlay, KeyCode::Enter);

    assert!(matches!(
        &add_commands[..],
        [Command::AddMcpCatalogSource { request }]
            if request.id == "corp"
                && request.display_name == "Corporate Registry"
                && request.kind == "mcp_registry"
                && request.url == "https://registry.example.com/catalog.json"
                && request.api_key_env.is_none()
                && request.priority == Some(100)
                && request.default_trust.as_deref() == Some("community")
                && request.enabled == Some(true)
                && request.cache_ttl_seconds.is_none()
    ));
}

fn case_runtime_tab_shows_disabled_tool_count() {
    let mut overlay = McpOverlay::new();
    overlay.show(runtime_snapshot(vec![entry("alpha", McpServerStatusView::Running, false, 3)]));
    overlay.handle_effect(CrossPanelEffect::McpToolsLoaded {
        server_id: "alpha".to_string(),
        tools: vec![tool("search", false), tool("write", true), tool("delete", false)],
        healthy: true,
        error: None,
    });
    let text = runtime_row_text(&overlay, 0);
    assert!(text.contains("1 off"), "runtime tab should show disabled tool count: {text}");
}

fn case_runtime_tab_omits_disabled_count_when_all_enabled() {
    let mut overlay = McpOverlay::new();
    overlay.show(runtime_snapshot(vec![entry("alpha", McpServerStatusView::Running, false, 2)]));
    overlay.handle_effect(CrossPanelEffect::McpToolsLoaded {
        server_id: "alpha".to_string(),
        tools: vec![tool("search", false), tool("write", false)],
        healthy: true,
        error: None,
    });
    let text = runtime_row_text(&overlay, 0);
    assert!(
        !text.contains("off"),
        "runtime tab should not show disabled count when all tools enabled: {text}"
    );
}

#[test]
fn mcp_overlay_overlay_invisible_by_default() { overlay_invisible_by_default(); }
#[test]
fn renders_server_list_from_runtime() { case_renders_server_list_from_runtime(); }
#[test]
fn tests_j_and_k_navigate_selection() { case_j_and_k_navigate_selection(); }
#[test]
fn enter_starts_stopped_server() { case_enter_starts_stopped_server(); }
#[test]
fn enter_stops_running_server() { case_enter_stops_running_server(); }
#[test]
fn enter_starts_failed_server() { case_enter_starts_failed_server(); }
#[test]
fn t_emits_trust_command_for_selected_server() { case_t_emits_trust_command_for_selected_server(); }
#[test]
fn t_emits_revoke_command_for_trusted_server() { case_t_emits_revoke_command_for_trusted_server(); }
#[test]
fn r_emits_refresh_tools_command() { case_r_emits_refresh_tools_command(); }
#[test]
fn runtime_tab_emits_health_and_connectivity_commands() { case_runtime_tab_emits_health_and_connectivity_commands(); }
#[test]
fn tools_tab_toggles_selected_tool_disabled_state() { case_tools_tab_toggles_selected_tool_disabled_state(); }
#[test]
fn resources_tab_lists_and_reads_selected_resource() { case_resources_tab_lists_and_reads_selected_resource(); }
#[test]
fn prompts_tab_lists_prompts_for_selected_runtime_server() { case_prompts_tab_lists_prompts_for_selected_runtime_server(); }
#[test]
fn mcp_overlay_esc_hides_and_emits_dismiss_effect() { esc_hides_and_emits_dismiss_effect(); }
#[test]
fn mcp_overlay_ignores_keys_when_hidden() { ignores_keys_when_hidden(); }
#[test]
fn mcp_overlay_show_effect_makes_visible() { show_effect_makes_visible(); }
#[test]
fn enter_with_no_servers_emits_nothing() { case_enter_with_no_servers_emits_nothing(); }
#[test]
fn tabs_preserve_independent_selection() { case_tabs_preserve_independent_selection(); }
#[test]
fn settings_tab_emits_enable_and_delete_commands() { case_settings_tab_emits_enable_and_delete_commands(); }
#[test]
fn settings_tab_opens_config_and_updates_project_scope_disablement() { case_settings_tab_opens_config_and_updates_project_scope_disablement(); }
#[test]
fn settings_tab_server_editor_saves_new_stdio_server() { case_settings_tab_server_editor_saves_new_stdio_server(); }
#[test]
fn settings_tab_enter_edits_selected_server() { case_settings_tab_enter_edits_selected_server(); }
#[test]
fn catalog_and_installed_tabs_emit_install_uninstall_commands() { case_catalog_and_installed_tabs_emit_install_uninstall_commands(); }
#[test]
fn catalog_install_renders_in_flight_status_after_command_emission() { case_catalog_install_renders_in_flight_status_after_command_emission(); }
#[test]
fn catalog_install_config_editor_collects_required_overrides() { case_catalog_install_config_editor_collects_required_overrides(); }
#[test]
fn catalog_tab_filters_by_keyword_trust_and_enabled_source() { case_catalog_tab_filters_by_keyword_trust_and_enabled_source(); }
#[test]
fn catalog_tab_renders_detail_metadata_for_selected_entry() { case_catalog_tab_renders_detail_metadata_for_selected_entry(); }
#[test]
fn sources_tab_emits_source_enable_command() { case_sources_tab_emits_source_enable_command(); }
#[test]
fn sources_tab_adds_and_removes_catalog_sources() { case_sources_tab_adds_and_removes_catalog_sources(); }
#[test]
fn runtime_tab_shows_disabled_tool_count() { case_runtime_tab_shows_disabled_tool_count(); }
#[test]
fn runtime_tab_omits_disabled_count_when_all_enabled() { case_runtime_tab_omits_disabled_count_when_all_enabled(); }

#[test]
fn install_status_labels_cover_every_outcome() {
    let installed = CatalogInstallStatus::Installed { server_id: "gh".to_string(), started: true };
    assert_eq!(install_status_list_label(&installed), ("installed", Tone::Green));
    assert_eq!(install_status_detail(&installed).0, "installed as gh (started)");
    let already = CatalogInstallStatus::AlreadyInstalled { server_id: "gh".to_string() };
    assert_eq!(install_status_list_label(&already).0, "already installed");
    assert_eq!(install_status_detail(&already).0, "already installed as gh");
    let runtime = CatalogInstallStatus::RuntimeMissing { missing_runtimes: vec!["node".to_string(), "uv".to_string()] };
    assert_eq!(install_status_list_label(&runtime), ("install failed", Tone::Red));
    assert_eq!(install_status_detail(&runtime).0, "missing runtime node, uv");
    let env = CatalogInstallStatus::MissingEnv { missing_env_keys: Vec::new() };
    assert_eq!(install_status_detail(&env).0, "missing env unknown key");
    let failed = CatalogInstallStatus::Failed { message: "x".repeat(70) };
    assert_eq!(install_status_detail(&failed).0, format!("failed {}...", "x".repeat(60)));
}

#[test]
fn config_heading_for_one_optional_item() {
    let items = vec![CatalogConfigItem {
        key: "MODE".to_string(),
        label: "Mode".to_string(),
        description: "   ".to_string(),
        kind: "env".to_string(),
        required: false,
        secret: true,
        default: Some("x".to_string()),
    }];
    let (count, required, tone) = config_heading(&items);
    assert_eq!(count, " 1 item");
    assert_eq!(required, " required:0");
    assert_eq!(tone, Tone::DarkGray);
    assert_eq!(config_item_meta(&items[0]), "env optional secret default:set");
    assert_eq!(config_item_description(&items[0]), "");
}

fn spans_text(spans: &[agent_tui::styled::StyledSpan]) -> String {
    spans.iter().map(|s| s.text.clone()).collect()
}

#[test]
fn list_rows_describe_settings_installed_and_sources() {
    let mut s = setting("alpha", true);
    s.writable = false;
    assert_eq!(spans_text(&setting_row_line(&s)), "enabled   alpha  stopped  [user read-only] tools:2");
    let mut i = installed("beta", false);
    i.catalog_id = None;
    i.source = None;
    assert_eq!(spans_text(&installed_row_line(&i)), "stopped  beta  unknown@manual");
    let mut src = source("builtin", false);
    src.url = String::new();
    assert_eq!(spans_text(&source_row_line(&src)), "disabled  builtin  mcp_registry  builtin");
}

#[test]
fn list_rows_describe_tools_resources_and_prompts() {
    assert_eq!(spans_text(&tool_row_line(&tool("write", true))), "disabled  write  write tool");
    assert_eq!(spans_text(&prompt_row_line(&prompt("summarize"))), "summarize  args:2  summarize prompt");
    let mut overlay = McpOverlay::new();
    overlay.show(runtime_snapshot(vec![entry("alpha", McpServerStatusView::Running, false, 1)]));
    let r = resource("file://logs/app.log");
    assert_eq!(spans_text(&resource_row_line(&overlay, &r)), "App log  file://logs/app.log  text/plain");
    overlay.handle_effect(CrossPanelEffect::McpResourceRead {
        server_id: "alpha".to_string(),
        uri: "file://logs/app.log".to_string(),
        preview: "started".to_string(),
    });
    assert_eq!(
        spans_text(&resource_row_line(&overlay, &r)),
        "App log  file://logs/app.log  text/plain  started"
    );
}

#[test]
fn catalog_row_shows_trust_colour_and_install_status() {
    let mut overlay = McpOverlay::new();
    overlay.show(snapshot());
    let row = catalog_row_line(&overlay, &overlay.catalog[0]);
    assert_eq!(spans_text(&row), "filesystem MCP  @builtin  verified  filesystem summary");
    assert_eq!(row[2].style.fg, Some(Tone::Green));
    advance_tabs(&mut overlay, 3);
    let _ = press(&mut overlay, KeyCode::Char('i'));
    let row = catalog_row_line(&overlay, &overlay.catalog[0]);
    assert_eq!(spans_text(&row), "filesystem MCP  @builtin  verified  filesystem summary  installing");
    assert_eq!(trust_tone("community"), Tone::Yellow);
    assert_eq!(trust_tone("unverified"), Tone::Red);
}

#[test]
fn detail_pane_lines_cover_install_requirements_and_metadata() {
    let stdio = Some(InstallSpecSummary::Stdio {
        command: "npx".to_string(),
        args: vec!["-y".to_string(), "server".to_string()],
    });
    let lines = install_lines(&stdio);
    assert_eq!(lines.len(), 1);
    assert_eq!(spans_text(&lines[0]), "install: stdio npx -y server");
    let sse = Some(InstallSpecSummary::Sse {
        url: "https://mcp.example.com/sse".to_string(),
        header_keys: vec!["Authorization".to_string()],
    });
    let lines = install_lines(&sse);
    assert_eq!(spans_text(&lines[1]), "headers: Authorization");
    assert_eq!(spans_text(&install_lines(&None)[0]), "install: unknown");

    let reqs = vec![CatalogRequirement {
        kind: "node".to_string(),
        min_version: Some("18".to_string()),
        install_hint: Some("Install Node.js".to_string()),
    }];
    let lines = requirement_lines(&reqs);
    assert_eq!(spans_text(&lines[0]), "requirements:");
    assert_eq!(spans_text(&lines[1]), "  node >=18 - Install Node.js");
    assert_eq!(spans_text(&requirement_lines(&[])[0]), "requirements: none");

    let mut e = catalog_entry("github", "registry");
    e.description = "Browse repositories and issues".to_string();
    e.homepage = Some("https://github.com/modelcontextprotocol".to_string());
    e.tags = Vec::new();
    let lines = detail_head_lines(&e);
    let text: Vec<String> = lines.iter().map(|l| spans_text(l)).collect();
    assert_eq!(text[0], "github MCP");
    assert_eq!(text[1], "Browse repositories and issues");
    assert_eq!(text[2], "");
    assert_eq!(text[3], "id: github  source: registry");
    assert_eq!(text[4], "trust: verified  version: 1.0.0");
    assert_eq!(text[5], "author: Kairox");
    assert_eq!(text[6], "home: https://github.com/modelcontextprotocol");
    assert_eq!(text[7], "categories: dev  tags: -");
}

#[test]
fn tab_bar_highlights_current_tab_and_adds_catalog_summary() {
    let mut overlay = McpOverlay::new();
    overlay.show(snapshot());
    let bar = tab_bar_line(&overlay);
    assert_eq!(bar.len(), 16);
    assert_eq!(bar[0].text, " Runtime ");
    assert!(bar[0].style.bold);
    assert!(!bar[2].style.bold);
    advance_tabs(&mut overlay, 3);
    let bar = tab_bar_line(&overlay);
    assert_eq!(bar.len(), 17);
    assert_eq!(bar[16].text, "catalog: 1/1  search:*  trust:all");
}

#[test]
fn server_editor_backspace_removes_last_character() {
    let mut overlay = McpOverlay::new();
    overlay.show(snapshot());
    let _ = press(&mut overlay, KeyCode::Tab);
    let _ = press(&mut overlay, KeyCode::Char('n'));
    type_text(&mut overlay, "gammax");
    let _ = press(&mut overlay, KeyCode::Backspace);
    assert_eq!(overlay.server_draft.name, "gamma");
}

#[test]
fn catalog_search_backspace_restores_matches() {
    let mut overlay = McpOverlay::new();
    overlay.show(snapshot());
    advance_tabs(&mut overlay, 3);
    let _ = press(&mut overlay, KeyCode::Char('/'));
    type_text(&mut overlay, "files");
    let _ = press(&mut overlay, KeyCode::Char('z'));
    assert_eq!(overlay.current_len(), 0);
    let _ = press(&mut overlay, KeyCode::Backspace);
    assert_eq!(overlay.catalog_keyword, "files");
    assert_eq!(overlay.current_len(), 1);
}

#[test]
fn install_header_clips_name_and_reminds_required_values() {
    use_install_header();
}

fn use_install_header() {
    let mut entry = catalog_entry("github", "registry");
    entry.display_name = "x".repeat(70);
    entry.config_items = config_items_from(
        &[env_spec("TOKEN", "Token", "Token", true, true, None)],
        &[],
    );
    let mut overlay = McpOverlay::new();
    overlay.show(McpOverlaySnapshot {
        runtime_servers: Vec::new(),
        settings: Vec::new(),
        installed: Vec::new(),
        catalog: vec![entry],
        sources: vec![source("registry", true)],
    });
    advance_tabs(&mut overlay, 3);
    let _ = press(&mut overlay, KeyCode::Char('i'));
    assert_eq!(overlay.mode, McpOverlayMode::CatalogInstallConfig);
    let header = agent_tui::mcp_overlay::view::install_header_lines(&overlay.catalog_install_draft);
    assert_eq!(header.len(), 2);
    assert_eq!(header[0][0].text, "Install configuration: ");
    assert!(header[0][0].style.bold);
    assert_eq!(header[0][0].style.fg, Some(Tone::Cyan));
    assert_eq!(header[0][1].text, format!("{}...", "x".repeat(64)));
    assert_eq!(spans_text(&header[1]), "Fill required MCP catalog values before installing");
}

#[test]
fn default_mcp_overlay_is_the_new_one() {
    let overlay = McpOverlay::default();
    assert!(!overlay.is_visible());
    assert!(overlay.servers().is_empty());
}

#[test]
fn dismiss_clears_the_install_configuration_draft() {
    let mut entry = catalog_entry("github", "registry");
    entry.config_items = config_items_from(&[env_spec("TOKEN", "Token", "Token", true, true, None)], &[]);
    let mut overlay = McpOverlay::new();
    overlay.show(McpOverlaySnapshot {
        runtime_servers: Vec::new(),
        settings: Vec::new(),
        installed: Vec::new(),
        catalog: vec![entry],
        sources: vec![source("registry", true)],
    });
    advance_tabs(&mut overlay, 3);
    let _ = press(&mut overlay, KeyCode::Char('i'));
    assert_eq!(overlay.catalog_install_draft.catalog_id, "github");
    overlay.dismiss();
    assert_eq!(overlay.catalog_install_draft.catalog_id, "");
    assert_eq!(overlay.catalog_install_draft.source, "");
    assert_eq!(overlay.catalog_install_draft.display_name, "");
}
