use agent_tui::commands::Command;
use agent_tui::context::EventContext;
use agent_tui::effects::CrossPanelEffect;
use agent_tui::ids::WorkspaceId;
use agent_tui::keys::{KeyCode, KeyInput};
use agent_tui::plugin_overlay::state::PluginOverlay;
use agent_tui::plugin_overlay::types::{
    ConfigScope, PluginCatalogEntry, PluginComponentInventoryView, PluginInstallTarget,
    PluginMarketplaceSourceView, PluginOverlaySnapshot, PluginSettingsView,
};
use agent_tui::plugin_overlay::view::{catalog_row_line, catalog_summary, installed_row_line, source_row_line};
use agent_tui::FocusTarget;

fn installed_plugin(settings_id: &str, enabled: bool) -> PluginSettingsView {
    PluginSettingsView {
        settings_id: settings_id.to_string(),
        id: settings_id.replace(':', "-"),
        name: settings_id.to_string(),
        description: format!("{settings_id} plugin"),
        version: Some("1.2.3".to_string()),
        scope: ConfigScope::User,
        path: format!("/tmp/{settings_id}"),
        enabled,
        install_source: Some("local".to_string()),
        marketplace: Some("local-market".to_string()),
        effective: true,
        shadowed_by: None,
        valid: true,
        validation_error: None,
        inventory: PluginComponentInventoryView {
            skill_count: 2,
            skill_names: vec!["alpha".to_string(), "beta".to_string()],
            mcp_server_count: 1,
            app_count: 0,
            agent_count: 1,
            hook_count: 0,
        },
        manifest_kind: "kairox".to_string(),
    }
}

fn catalog_entry_from(marketplace_id: &str, name: &str) -> PluginCatalogEntry {
    PluginCatalogEntry {
        marketplace_id: marketplace_id.to_string(),
        name: name.to_string(),
        description: format!("{name} catalog plugin"),
        version: Some("0.1.0".to_string()),
        source: format!("/tmp/catalog/{name}"),
    }
}

fn catalog_entry(name: &str) -> PluginCatalogEntry {
    catalog_entry_from("local-market", name)
}

fn source(id: &str, enabled: bool) -> PluginMarketplaceSourceView {
    PluginMarketplaceSourceView {
        id: id.to_string(),
        display_name: id.to_string(),
        source: format!("/tmp/{id}"),
        enabled,
        builtin: false,
    }
}

fn snapshot() -> PluginOverlaySnapshot {
    PluginOverlaySnapshot {
        plugins: vec![installed_plugin("user:alpha", true), installed_plugin("user:beta", false)],
        catalog: vec![catalog_entry("delta"), catalog_entry_from("remote-market", "epsilon")],
        sources: vec![source("local-market", true), source("remote-market", true)],
        install_target: PluginInstallTarget::User,
    }
}

fn press(overlay: &mut PluginOverlay, code: KeyCode) -> (Vec<CrossPanelEffect>, Vec<Command>) {
    let ws = WorkspaceId::from_string("ws".to_string());
    let sid = None;
    let ctx = EventContext {
        focus: FocusTarget::PluginOverlay,
        projects: &[],
        sessions: &[],
        model_profile: "fake",
        sidebar_left_visible: true,
        sidebar_right_visible: true,
        workspace_id: &ws,
        current_session_id: &sid,
    };
    overlay.handle_event(&ctx, KeyInput::plain(code))
}

fn type_text(overlay: &mut PluginOverlay, text: &str) {
    for ch in text.chars() {
        let _ = press(overlay, KeyCode::Char(ch));
    }
}

fn lists_installed_plugins_from_snapshot() {
    let mut overlay = PluginOverlay::new();
    overlay.show(snapshot());
    assert!(overlay.is_visible());
    assert_eq!(overlay.selected_index(), Some(0));
    assert_eq!(overlay.plugins().len(), 2);
    let row = installed_row_line(&overlay.plugins()[0]);
    assert_eq!(row[2].text, "user:alpha");
    assert_eq!(row[0].text, "enabled ");
    assert_eq!(row[5].text, " [user effective s:2 mcp:1 a:1 h:0]");
}

fn e_toggles_selected_installed_plugin_enabled_state() {
    let mut overlay = PluginOverlay::new();
    overlay.show(snapshot());
    let (_, commands) = press(&mut overlay, KeyCode::Char('e'));
    assert!(matches!(
        &commands[..],
        [Command::SetPluginEnabled { settings_id, enabled }] if settings_id == "user:alpha" && !enabled
    ));
}

fn x_deletes_selected_installed_plugin() {
    let mut overlay = PluginOverlay::new();
    overlay.show(snapshot());
    let (_, commands) = press(&mut overlay, KeyCode::Char('x'));
    assert!(matches!(&commands[..], [Command::DeletePluginSettings { settings_id }] if settings_id == "user:alpha"));
}

fn i_installs_selected_catalog_plugin_to_current_target() {
    let mut overlay = PluginOverlay::new();
    overlay.show(snapshot());
    let _ = press(&mut overlay, KeyCode::Tab);
    let (_, commands) = press(&mut overlay, KeyCode::Char('i'));
    assert!(matches!(
        &commands[..],
        [Command::InstallPlugin { request }]
            if request.marketplace_id == "local-market"
                && request.plugin_name == "delta"
                && request.target == PluginInstallTarget::User
    ));
}

fn t_changes_catalog_install_target() {
    let mut overlay = PluginOverlay::new();
    overlay.show(snapshot());
    let _ = press(&mut overlay, KeyCode::Tab);
    let _ = press(&mut overlay, KeyCode::Char('t'));
    let (_, commands) = press(&mut overlay, KeyCode::Char('i'));
    assert!(matches!(
        &commands[..],
        [Command::InstallPlugin { request }]
            if request.plugin_name == "delta" && request.target == PluginInstallTarget::Project
    ));
}

fn e_toggles_selected_marketplace_source() {
    let mut overlay = PluginOverlay::new();
    overlay.show(snapshot());
    let _ = press(&mut overlay, KeyCode::BackTab);
    let (_, commands) = press(&mut overlay, KeyCode::Char('e'));
    assert!(matches!(
        &commands[..],
        [Command::SetPluginMarketplaceSourceEnabled { source_id, enabled }]
            if source_id == "local-market" && !enabled
    ));
}

fn esc_hides_and_emits_dismiss_effect() {
    let mut overlay = PluginOverlay::new();
    overlay.show(snapshot());
    let (effects, commands) = press(&mut overlay, KeyCode::Esc);
    assert!(commands.is_empty());
    assert!(effects.contains(&CrossPanelEffect::DismissPluginsOverlay));
    assert!(!overlay.is_visible());
}

#[test]
fn plugin_overlay_lists_installed_plugins_from_snapshot() {
    lists_installed_plugins_from_snapshot();
}

#[test]
fn tests_lists_installed_plugins_from_snapshot() {
    lists_installed_plugins_from_snapshot();
}

#[test]
fn plugin_overlay_e_toggles_selected_installed_plugin_enabled_state() {
    e_toggles_selected_installed_plugin_enabled_state();
}

#[test]
fn tests_e_toggles_selected_installed_plugin_enabled_state() {
    e_toggles_selected_installed_plugin_enabled_state();
}

#[test]
fn plugin_overlay_x_deletes_selected_installed_plugin() {
    x_deletes_selected_installed_plugin();
}

#[test]
fn tests_x_deletes_selected_installed_plugin() {
    x_deletes_selected_installed_plugin();
}

#[test]
fn plugin_overlay_i_installs_selected_catalog_plugin_to_current_target() {
    i_installs_selected_catalog_plugin_to_current_target();
}

#[test]
fn tests_i_installs_selected_catalog_plugin_to_current_target() {
    i_installs_selected_catalog_plugin_to_current_target();
}

#[test]
fn plugin_overlay_t_changes_catalog_install_target() {
    t_changes_catalog_install_target();
}

#[test]
fn tests_t_changes_catalog_install_target() {
    t_changes_catalog_install_target();
}

#[test]
fn slash_search_updates_catalog_keyword_and_requests_refresh() {
    let mut overlay = PluginOverlay::new();
    overlay.show(snapshot());
    let _ = press(&mut overlay, KeyCode::Tab);
    let (_, commands) = press(&mut overlay, KeyCode::Char('/'));
    assert!(commands.is_empty());
    type_text(&mut overlay, "delta");
    let (_, commands) = press(&mut overlay, KeyCode::Enter);
    assert!(matches!(&commands[..], [Command::OpenPluginsOverlay]));
    let filters = overlay.catalog_filters();
    assert_eq!(filters.keyword.as_deref(), Some("delta"));
    assert_eq!(filters.marketplace_id, None);
}

#[test]
fn s_cycles_catalog_marketplace_filter_and_requests_refresh() {
    let mut overlay = PluginOverlay::new();
    overlay.show(snapshot());
    let _ = press(&mut overlay, KeyCode::Tab);
    let (_, commands) = press(&mut overlay, KeyCode::Char('s'));
    assert!(matches!(&commands[..], [Command::OpenPluginsOverlay]));
    let filters = overlay.catalog_filters();
    assert_eq!(filters.marketplace_id.as_deref(), Some("local-market"));
    assert_eq!(filters.keyword, None);
}

#[test]
fn plugin_overlay_e_toggles_selected_marketplace_source() {
    e_toggles_selected_marketplace_source();
}

#[test]
fn tests_e_toggles_selected_marketplace_source() {
    e_toggles_selected_marketplace_source();
}

#[test]
fn plugin_overlay_esc_hides_and_emits_dismiss_effect() {
    esc_hides_and_emits_dismiss_effect();
}

#[test]
fn plugin_esc_hides_and_emits_dismiss_effect() {
    esc_hides_and_emits_dismiss_effect();
}

#[test]
fn marketplace_filter_cycles_through_sources_and_back_to_all() {
    let mut overlay = PluginOverlay::new();
    overlay.show(snapshot());
    let _ = press(&mut overlay, KeyCode::Tab);
    assert_eq!(overlay.catalog_marketplace_label(), "all");
    let _ = press(&mut overlay, KeyCode::Char('s'));
    assert_eq!(overlay.catalog_marketplace_label(), "local-market");
    let _ = press(&mut overlay, KeyCode::Char('s'));
    assert_eq!(overlay.catalog_marketplace_label(), "remote-market");
    let _ = press(&mut overlay, KeyCode::Char('s'));
    assert_eq!(overlay.catalog_marketplace_label(), "all");
    assert!(!overlay.catalog_filters_active());
}

#[test]
fn builtin_plugins_are_not_changed() {
    let mut snap = snapshot();
    snap.plugins[0].scope = ConfigScope::Builtin;
    let mut overlay = PluginOverlay::new();
    overlay.show(snap);
    let (_, commands) = press(&mut overlay, KeyCode::Char('e'));
    assert!(commands.is_empty());
    let (_, commands) = press(&mut overlay, KeyCode::Char('x'));
    assert!(commands.is_empty());
}

#[test]
fn plugin_rows_and_summary_text() {
    let mut overlay = PluginOverlay::new();
    overlay.show(snapshot());
    let row = catalog_row_line(&catalog_entry("delta"), PluginInstallTarget::Project);
    let text: String = row.iter().map(|s| s.text.clone()).collect();
    assert_eq!(text, "delta  v0.1.0  @local-market  delta catalog plugin  -> project");
    let mut no_version = catalog_entry("zeta");
    no_version.version = None;
    assert_eq!(catalog_row_line(&no_version, PluginInstallTarget::User)[1].text, "  vunknown");
    let text: String = source_row_line(&source("local-market", false)).iter().map(|s| s.text.clone()).collect();
    assert_eq!(text, "disabled  local-market  user  /tmp/local-market");
    assert_eq!(catalog_summary(&overlay), "catalog:2  search:*  source:all");
}

#[test]
fn plugin_tab_then_back_tab_keeps_selection() {
    let mut overlay = PluginOverlay::new();
    overlay.show(snapshot());
    let _ = press(&mut overlay, KeyCode::Char('j'));
    assert_eq!(overlay.selected_index(), Some(1));
    let _ = press(&mut overlay, KeyCode::Tab);
    let _ = press(&mut overlay, KeyCode::BackTab);
    assert_eq!(overlay.selected_index(), Some(1));
}

#[test]
fn marketplace_filter_cycle_returns_after_one_call_per_source_and_one_more() {
    let mut overlay = PluginOverlay::new();
    overlay.show(snapshot());
    assert_eq!(overlay.catalog_marketplace_filter, None);
    let mut seen = Vec::new();
    for _ in 0..3 {
        overlay.cycle_catalog_marketplace_filter();
        seen.push(overlay.catalog_marketplace_filter.clone());
    }
    assert_eq!(
        seen,
        vec![Some("local-market".to_string()), Some("remote-market".to_string()), None]
    );
}

#[test]
fn default_plugin_overlay_is_the_new_one() {
    let overlay = PluginOverlay::default();
    assert!(!overlay.is_visible());
    assert!(overlay.plugins().is_empty());
}
