use agent_tui::commands::Command;
use agent_tui::context::EventContext;
use agent_tui::effects::CrossPanelEffect;
use agent_tui::ids::{SessionId, WorkspaceId};
use agent_tui::keys::{KeyCode, KeyInput};
use agent_tui::model_overlay::state::{ModelOverlay, REASONING_EFFORTS};
use agent_tui::model_overlay::types::{ModelOverlaySnapshot, ModelProfileEntry, ModelProfileTestResult, ProfileSettingsInput};
use agent_tui::model_overlay::view::{context_limits_label, profile_editor_row_line, profile_row_line, token_count_text};
use agent_tui::FocusTarget;

fn entry(alias: &str, supports_reasoning: bool) -> ModelProfileEntry {
    ModelProfileEntry {
        alias: alias.to_string(),
        provider_display: "provider".to_string(),
        model_display: format!("{alias}-model"),
        context_window: None,
        output_limit: None,
        temperature: None,
        top_p: None,
        top_k: None,
        max_tokens: None,
        base_url: None,
        api_key_env: None,
        supports_reasoning,
        enabled: true,
        writable: true,
        source: "profiles_toml".to_string(),
        has_api_key: true,
    }
}

fn disabled_entry(alias: &str) -> ModelProfileEntry {
    ModelProfileEntry { enabled: false, ..entry(alias, false) }
}

fn snapshot(profiles: Vec<ModelProfileEntry>, current_alias: Option<&str>, current_effort: Option<&str>) -> ModelOverlaySnapshot {
    ModelOverlaySnapshot {
        profiles,
        current_alias: current_alias.map(str::to_string),
        current_effort: current_effort.map(str::to_string),
    }
}

fn press_in(overlay: &mut ModelOverlay, session: bool, input: KeyInput) -> (Vec<CrossPanelEffect>, Vec<Command>) {
    let ws = WorkspaceId::from_string("ws".to_string());
    let sid = if session { Some(SessionId::from_string("s1".to_string())) } else { None };
    let ctx = EventContext {
        focus: FocusTarget::ModelOverlay,
        projects: &[],
        sessions: &[],
        model_profile: "fake",
        sidebar_left_visible: true,
        sidebar_right_visible: true,
        workspace_id: &ws,
        current_session_id: &sid,
    };
    overlay.handle_event(&ctx, input)
}

fn press(overlay: &mut ModelOverlay, code: KeyCode) -> Vec<Command> {
    press_in(overlay, false, KeyInput::plain(code)).1
}

fn type_text(overlay: &mut ModelOverlay, value: &str) {
    for ch in value.chars() {
        let _ = press(overlay, KeyCode::Char(ch));
    }
}

fn overlay_invisible_by_default() {
    let overlay = ModelOverlay::new();
    assert!(!overlay.is_visible());
    assert!(overlay.profiles().is_empty());
}

fn shows_reasoning_effort_for_reasoning_models() {
    let mut overlay = ModelOverlay::new();
    overlay.show(snapshot(
        vec![entry("fast", false), entry("opus-reasoning", true), entry("local", false)],
        Some("opus-reasoning"),
        Some("high"),
    ));
    assert!(overlay.is_visible());
    assert_eq!(overlay.selected_index(), Some(1));
    assert!(overlay.shows_effort_picker());
    assert_eq!(overlay.selected_effort(), Some("high"));
    assert_eq!(overlay.effort_options(), REASONING_EFFORTS);
}

fn hides_effort_picker_for_non_reasoning_profile() {
    let mut overlay = ModelOverlay::new();
    overlay.show(snapshot(vec![entry("fast", false), entry("opus-reasoning", true)], Some("fast"), None));
    assert!(!overlay.shows_effort_picker());
    assert!(overlay.selected_effort().is_none());
    assert!(overlay.effort_options().is_empty());
}

fn enter_emits_switch_model_with_alias_and_no_effort_for_plain_profile() {
    let mut overlay = ModelOverlay::new();
    overlay.show(snapshot(vec![entry("fast", false), entry("opus-reasoning", true)], Some("opus-reasoning"), None));
    let _ = press_in(&mut overlay, true, KeyInput::plain(KeyCode::Char('k')));
    assert_eq!(overlay.selected_profile().map(|e| e.alias.as_str()), Some("fast"));
    let (effects, commands) = press_in(&mut overlay, true, KeyInput::plain(KeyCode::Enter));
    assert_eq!(commands.len(), 1);
    assert!(matches!(
        &commands[0],
        Command::SwitchModel { alias, reasoning_effort, .. } if alias == "fast" && reasoning_effort.is_none()
    ));
    assert!(effects.contains(&CrossPanelEffect::DismissModelOverlay));
    assert!(!overlay.is_visible());
}

fn enter_does_not_switch_disabled_profile() {
    let mut overlay = ModelOverlay::new();
    overlay.show(snapshot(vec![disabled_entry("slow")], Some("fast"), None));
    let (_, commands) = press_in(&mut overlay, true, KeyInput::plain(KeyCode::Enter));
    assert!(commands.is_empty());
    assert!(overlay.is_visible());
}

fn profile_management_keys_emit_settings_commands() {
    let mut overlay = ModelOverlay::new();
    overlay.show(snapshot(vec![entry("fast", false), disabled_entry("slow")], Some("fast"), None));
    let _ = press_in(&mut overlay, true, KeyInput::plain(KeyCode::Char('j')));
    let (_, commands) = press_in(&mut overlay, true, KeyInput::plain(KeyCode::Char('e')));
    assert!(matches!(&commands[..], [Command::SetProfileEnabled { alias, enabled }] if alias == "slow" && *enabled));
    let (_, commands) = press_in(&mut overlay, true, KeyInput::plain(KeyCode::Char('x')));
    assert!(matches!(&commands[..], [Command::DeleteProfileSettings { alias }] if alias == "slow"));
    let (_, commands) = press_in(&mut overlay, true, KeyInput::plain(KeyCode::Char('t')));
    assert!(matches!(&commands[..], [Command::TestModelProfile { alias }] if alias == "slow"));
    let (_, commands) = press_in(&mut overlay, true, KeyInput::plain(KeyCode::Char('o')));
    assert!(matches!(&commands[..], [Command::OpenProfilesConfig]));
}

fn editor_ctrl_t_tests_draft_base_url() {
    let mut overlay = ModelOverlay::new();
    overlay.show(snapshot(vec![entry("fast", false)], Some("fast"), None));
    let _ = press(&mut overlay, KeyCode::Char('n'));
    type_text(&mut overlay, "draft");
    let _ = press(&mut overlay, KeyCode::Down);
    type_text(&mut overlay, "openai");
    let _ = press(&mut overlay, KeyCode::Down);
    type_text(&mut overlay, "gpt-4.1");
    let _ = press(&mut overlay, KeyCode::Down);
    type_text(&mut overlay, "https://api.example.test/v1");
    let (_, commands) = press_in(&mut overlay, true, KeyInput::with_control(KeyCode::Char('t')));
    assert!(matches!(
        &commands[..],
        [Command::TestModelProfileUrl { alias, base_url }]
            if alias == "draft" && base_url == "https://api.example.test/v1"
    ));
}

fn shift_j_and_k_emit_profile_reorder_commands() {
    let mut overlay = ModelOverlay::new();
    overlay.show(snapshot(vec![entry("fast", false), entry("slow", false)], Some("fast"), None));
    let (_, commands) = press_in(&mut overlay, true, KeyInput::plain(KeyCode::Char('J')));
    assert!(matches!(&commands[..], [Command::MoveProfileInOrder { alias, direction }] if alias == "fast" && *direction == 1));
    let (_, commands) = press_in(&mut overlay, true, KeyInput::plain(KeyCode::Char('K')));
    assert!(matches!(&commands[..], [Command::MoveProfileInOrder { alias, direction }] if alias == "fast" && *direction == -1));
}

fn enter_emits_switch_model_with_selected_effort_for_reasoning_profile() {
    let mut overlay = ModelOverlay::new();
    overlay.show(snapshot(vec![entry("opus-reasoning", true)], Some("opus-reasoning"), Some("low")));
    let _ = press_in(&mut overlay, true, KeyInput::plain(KeyCode::Tab));
    let _ = press_in(&mut overlay, true, KeyInput::plain(KeyCode::Char('j')));
    let _ = press_in(&mut overlay, true, KeyInput::plain(KeyCode::Char('j')));
    assert_eq!(overlay.selected_effort(), Some("high"));
    let (_, commands) = press_in(&mut overlay, true, KeyInput::plain(KeyCode::Enter));
    assert!(matches!(
        &commands[0],
        Command::SwitchModel { alias, reasoning_effort, .. }
            if alias == "opus-reasoning" && reasoning_effort.as_deref() == Some("high")
    ));
}

fn enter_with_no_session_emits_no_command() {
    let mut overlay = ModelOverlay::new();
    overlay.show(snapshot(vec![entry("fast", false)], Some("fast"), None));
    let commands = press(&mut overlay, KeyCode::Enter);
    assert!(commands.is_empty());
}

fn esc_hides_and_emits_dismiss_effect() {
    let mut overlay = ModelOverlay::new();
    overlay.show(snapshot(vec![entry("fast", false)], Some("fast"), None));
    let (effects, _) = press_in(&mut overlay, false, KeyInput::plain(KeyCode::Esc));
    assert!(effects.contains(&CrossPanelEffect::DismissModelOverlay));
    assert!(!overlay.is_visible());
}

fn show_effect_makes_visible() {
    let mut overlay = ModelOverlay::new();
    overlay.handle_effect(CrossPanelEffect::ShowModelOverlay(snapshot(vec![entry("fast", false)], Some("fast"), None)));
    assert!(overlay.is_visible());
    assert_eq!(overlay.profiles().len(), 1);
}

fn j_and_k_navigate_profile_list() {
    let mut overlay = ModelOverlay::new();
    overlay.show(snapshot(vec![entry("a", false), entry("b", false), entry("c", false)], Some("a"), None));
    let _ = press_in(&mut overlay, true, KeyInput::plain(KeyCode::Char('j')));
    assert_eq!(overlay.selected_index(), Some(1));
    let _ = press_in(&mut overlay, true, KeyInput::plain(KeyCode::Char('j')));
    assert_eq!(overlay.selected_index(), Some(2));
    let _ = press_in(&mut overlay, true, KeyInput::plain(KeyCode::Char('j')));
    assert_eq!(overlay.selected_index(), Some(2), "clamps at end");
    let _ = press_in(&mut overlay, true, KeyInput::plain(KeyCode::Char('k')));
    assert_eq!(overlay.selected_index(), Some(1));
}

fn ignores_keys_when_hidden() {
    let mut overlay = ModelOverlay::new();
    let (effects, commands) = press_in(&mut overlay, false, KeyInput::plain(KeyCode::Enter));
    assert!(effects.is_empty());
    assert!(commands.is_empty());
}

fn new_profile_editor_saves_full_profile_input() {
    let mut overlay = ModelOverlay::new();
    overlay.show(snapshot(Vec::new(), None, None));
    overlay.replace_draft_for_test(ProfileSettingsInput {
        alias: "local-qwen".to_string(),
        provider: "openai-compatible".to_string(),
        model_id: "qwen3-coder".to_string(),
        enabled: true,
        context_window: Some(128000),
        output_limit: Some(8192),
        temperature: Some("0.2".to_string()),
        top_p: Some("0.9".to_string()),
        top_k: Some(40),
        max_tokens: Some(4096),
        base_url: Some("http://localhost:11434/v1".to_string()),
        api_key_env: Some("LOCAL_LLM_API_KEY".to_string()),
    });
    let (effects, commands) = press_in(&mut overlay, false, KeyInput::plain(KeyCode::Enter));
    assert!(effects.is_empty());
    assert!(matches!(
        &commands[..],
        [Command::SaveProfileSettings { input }]
            if input.alias == "local-qwen"
                && input.provider == "openai-compatible"
                && input.model_id == "qwen3-coder"
                && input.context_window == Some(128000)
                && input.output_limit == Some(8192)
                && input.temperature.as_deref() == Some("0.2")
                && input.top_p.as_deref() == Some("0.9")
                && input.top_k == Some(40)
                && input.max_tokens == Some(4096)
                && input.base_url.as_deref() == Some("http://localhost:11434/v1")
                && input.api_key_env.as_deref() == Some("LOCAL_LLM_API_KEY")
    ));
    assert!(overlay.is_visible());
}

fn keyboard_driven_new_profile_editor_collects_required_fields() {
    let mut overlay = ModelOverlay::new();
    overlay.show(snapshot(Vec::new(), None, None));
    assert!(press(&mut overlay, KeyCode::Char('n')).is_empty());
    type_text(&mut overlay, "local");
    assert!(press(&mut overlay, KeyCode::Tab).is_empty());
    type_text(&mut overlay, "fake");
    assert!(press(&mut overlay, KeyCode::Tab).is_empty());
    type_text(&mut overlay, "fake-model");
    let commands = press(&mut overlay, KeyCode::Enter);
    assert!(matches!(
        &commands[..],
        [Command::SaveProfileSettings { input }]
            if input.alias == "local" && input.provider == "fake" && input.model_id == "fake-model" && input.enabled
    ));
}

fn edit_profile_editor_preserves_alias_and_enabled_state() {
    let mut profile = entry("fast", false);
    profile.provider_display = "openai".to_string();
    profile.model_display = "gpt-5.4".to_string();
    profile.enabled = false;
    let mut overlay = ModelOverlay::new();
    overlay.show(snapshot(vec![profile], Some("fast"), None));
    let commands = press(&mut overlay, KeyCode::Char('u'));
    assert!(commands.is_empty());
    overlay.replace_draft_for_test(ProfileSettingsInput {
        alias: "fast".to_string(),
        provider: "anthropic".to_string(),
        model_id: "opus-4.1".to_string(),
        enabled: false,
        context_window: None,
        output_limit: None,
        temperature: None,
        top_p: None,
        top_k: None,
        max_tokens: None,
        base_url: None,
        api_key_env: Some("ANTHROPIC_API_KEY".to_string()),
    });
    let commands = press(&mut overlay, KeyCode::Enter);
    assert!(matches!(
        &commands[..],
        [Command::SaveProfileSettings { input }]
            if input.alias == "fast"
                && input.provider == "anthropic"
                && input.model_id == "opus-4.1"
                && !input.enabled
                && input.api_key_env.as_deref() == Some("ANTHROPIC_API_KEY")
    ));
}

#[test]
fn model_overlay_overlay_invisible_by_default() { overlay_invisible_by_default(); }
#[test]
fn tests_overlay_invisible_by_default() { overlay_invisible_by_default(); }
#[test]
fn model_overlay_shows_reasoning_effort_for_reasoning_models() { shows_reasoning_effort_for_reasoning_models(); }
#[test]
fn tests_shows_reasoning_effort_for_reasoning_models() { shows_reasoning_effort_for_reasoning_models(); }
#[test]
fn model_overlay_hides_effort_picker_for_non_reasoning_profile() { hides_effort_picker_for_non_reasoning_profile(); }
#[test]
fn tests_hides_effort_picker_for_non_reasoning_profile() { hides_effort_picker_for_non_reasoning_profile(); }
#[test]
fn model_overlay_enter_emits_switch_model_with_alias_and_no_effort_for_plain_profile() { enter_emits_switch_model_with_alias_and_no_effort_for_plain_profile(); }
#[test]
fn tests_enter_emits_switch_model_with_alias_and_no_effort_for_plain_profile() { enter_emits_switch_model_with_alias_and_no_effort_for_plain_profile(); }
#[test]
fn model_overlay_enter_does_not_switch_disabled_profile() { enter_does_not_switch_disabled_profile(); }
#[test]
fn tests_enter_does_not_switch_disabled_profile() { enter_does_not_switch_disabled_profile(); }
#[test]
fn model_overlay_profile_management_keys_emit_settings_commands() { profile_management_keys_emit_settings_commands(); }
#[test]
fn tests_profile_management_keys_emit_settings_commands() { profile_management_keys_emit_settings_commands(); }
#[test]
fn model_overlay_editor_ctrl_t_tests_draft_base_url() { editor_ctrl_t_tests_draft_base_url(); }
#[test]
fn tests_editor_ctrl_t_tests_draft_base_url() { editor_ctrl_t_tests_draft_base_url(); }
#[test]
fn model_overlay_shift_j_and_k_emit_profile_reorder_commands() { shift_j_and_k_emit_profile_reorder_commands(); }
#[test]
fn tests_shift_j_and_k_emit_profile_reorder_commands() { shift_j_and_k_emit_profile_reorder_commands(); }
#[test]
fn model_overlay_enter_emits_switch_model_with_selected_effort_for_reasoning_profile() { enter_emits_switch_model_with_selected_effort_for_reasoning_profile(); }
#[test]
fn tests_enter_emits_switch_model_with_selected_effort_for_reasoning_profile() { enter_emits_switch_model_with_selected_effort_for_reasoning_profile(); }
#[test]
fn model_overlay_enter_with_no_session_emits_no_command() { enter_with_no_session_emits_no_command(); }
#[test]
fn tests_enter_with_no_session_emits_no_command() { enter_with_no_session_emits_no_command(); }
#[test]
fn model_overlay_esc_hides_and_emits_dismiss_effect() { esc_hides_and_emits_dismiss_effect(); }
#[test]
fn tests_esc_hides_and_emits_dismiss_effect() { esc_hides_and_emits_dismiss_effect(); }
#[test]
fn model_overlay_show_effect_makes_visible() { show_effect_makes_visible(); }
#[test]
fn tests_show_effect_makes_visible() { show_effect_makes_visible(); }
#[test]
fn model_overlay_j_and_k_navigate_profile_list() { j_and_k_navigate_profile_list(); }
#[test]
fn tests_j_and_k_navigate_profile_list() { j_and_k_navigate_profile_list(); }
#[test]
fn model_overlay_ignores_keys_when_hidden() { ignores_keys_when_hidden(); }
#[test]
fn tests_ignores_keys_when_hidden() { ignores_keys_when_hidden(); }
#[test]
fn model_overlay_new_profile_editor_saves_full_profile_input() { new_profile_editor_saves_full_profile_input(); }
#[test]
fn tests_new_profile_editor_saves_full_profile_input() { new_profile_editor_saves_full_profile_input(); }
#[test]
fn model_overlay_keyboard_driven_new_profile_editor_collects_required_fields() { keyboard_driven_new_profile_editor_collects_required_fields(); }
#[test]
fn tests_keyboard_driven_new_profile_editor_collects_required_fields() { keyboard_driven_new_profile_editor_collects_required_fields(); }
#[test]
fn model_overlay_edit_profile_editor_preserves_alias_and_enabled_state() { edit_profile_editor_preserves_alias_and_enabled_state(); }
#[test]
fn tests_edit_profile_editor_preserves_alias_and_enabled_state() { edit_profile_editor_preserves_alias_and_enabled_state(); }

#[test]
fn token_counts_and_limits_are_compact() {
    assert_eq!(token_count_text(2_000_000).as_deref(), Some("2M"));
    assert_eq!(token_count_text(128_000).as_deref(), Some("128k"));
    assert_eq!(token_count_text(1_500), None);
    assert_eq!(token_count_text(999).as_deref(), Some("999"));
    assert_eq!(token_count_text(1_000_500), None);
    assert_eq!(context_limits_label(Some("128k"), Some("8k")), "ctx:128k/8k");
    assert_eq!(context_limits_label(Some("128k"), None), "ctx:128k");
    assert_eq!(context_limits_label(None, Some("8k")), "out:8k");
    assert_eq!(context_limits_label(None, None), "");
}

#[test]
fn profile_rows_show_marker_flags_and_test_result() {
    let mut overlay = ModelOverlay::new();
    overlay.show(snapshot(vec![entry("fast", true), disabled_entry("slow")], Some("fast"), None));
    overlay.handle_effect(CrossPanelEffect::ModelProfileTested(ModelProfileTestResult {
        alias: "slow".to_string(),
        ok: false,
        message: Some("timeout".to_string()),
    }));
    let first: String = profile_row_line(&overlay, &overlay.profiles()[0], "ctx:128k").iter().map(|s| s.text.clone()).collect();
    assert_eq!(first, "● enabled   fast  provider/fast-model [R]  ctx:128k  [profiles_toml writable key]");
    let second: String = profile_row_line(&overlay, &overlay.profiles()[1], "").iter().map(|s| s.text.clone()).collect();
    assert_eq!(second, "  disabled  slow  provider/slow-model    [profiles_toml writable key test:timeout]");
}

#[test]
fn editing_a_profile_locks_its_alias() {
    let mut overlay = ModelOverlay::new();
    let mut profile = entry("fast", false);
    profile.context_window = Some(200_000);
    overlay.show(snapshot(vec![profile], Some("fast"), None));
    let _ = press(&mut overlay, KeyCode::Char('u'));
    let alias_row: String = profile_editor_row_line(&overlay, 0).iter().map(|s| s.text.clone()).collect();
    assert_eq!(alias_row, "  Alias          fast (locked)");
    let ctx_row: String = profile_editor_row_line(&overlay, 5).iter().map(|s| s.text.clone()).collect();
    assert_eq!(ctx_row, "  Context        200000");
    type_text(&mut overlay, "x");
    let provider_row: String = profile_editor_row_line(&overlay, 1).iter().map(|s| s.text.clone()).collect();
    assert_eq!(provider_row, "> Provider       providerx");
}

fn overlay_lines(overlay: &ModelOverlay) -> Vec<String> {
    let mut out: Vec<String> = Vec::new();
    for p in overlay.profiles() {
        let spans = profile_row_line(overlay, p, "");
        out.push(spans.iter().map(|s| s.text.clone()).collect());
    }
    for e in overlay.effort_options() {
        let spans = agent_tui::model_overlay::view::effort_row_line(overlay, e);
        out.push(spans.iter().map(|s| s.text.clone()).collect());
    }
    for i in 0..12 {
        let spans = profile_editor_row_line(overlay, i);
        out.push(spans.iter().map(|s| s.text.clone()).collect());
    }
    out
}

fn renders_into_test_buffer() {
    let mut overlay = ModelOverlay::new();
    overlay.show(snapshot(
        vec![entry("fast", false), entry("opus-reasoning", true)],
        Some("opus-reasoning"),
        Some("middle"),
    ));
    let lines = overlay_lines(&overlay);
    assert!(lines[1].starts_with("● enabled   opus-reasoning"));
    assert!(lines.iter().any(|l| l == "● middle"));
}

#[test]
fn model_overlay_renders_into_test_buffer() { renders_into_test_buffer(); }
#[test]
fn tests_renders_into_test_buffer() { renders_into_test_buffer(); }

#[test]
fn render_function_handles_empty_profiles() {
    let overlay = ModelOverlay::new();
    let lines = overlay_lines(&overlay);
    assert_eq!(lines.len(), 12);
}

#[test]
fn effort_picker_shows_for_disabled_reasoning_profile() {
    let mut overlay = ModelOverlay::new();
    overlay.show(snapshot(
        vec![ModelProfileEntry { enabled: false, ..entry("deep", true) }],
        Some("deep"),
        Some("high"),
    ));
    assert!(overlay.shows_effort_picker());
    assert_eq!(overlay.effort_options().len(), 4);
    assert_eq!(overlay.selected_effort(), Some("high"));
    let commands = press_in(&mut overlay, true, KeyInput::plain(KeyCode::Enter)).1;
    assert!(commands.is_empty());
}

#[test]
fn default_model_overlay_is_the_new_one() {
    let overlay = ModelOverlay::default();
    assert!(!overlay.is_visible());
    assert!(!overlay.shows_effort_picker());
}
