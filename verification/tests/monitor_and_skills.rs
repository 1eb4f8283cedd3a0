use agent_tui::commands::Command;
use agent_tui::context::EventContext;
use agent_tui::effects::CrossPanelEffect;
use agent_tui::ids::{SessionId, WorkspaceId};
use agent_tui::keys::{KeyCode, KeyInput};
use agent_tui::monitor_overlay::{
    format_timeout, monitor_row_line, truncate_command, MonitorEntry, MonitorOverlay,
    MonitorOverlaySnapshot,
};
use agent_tui::skills_overlay::{body_lines, skill_row_line, SkillEntry, SkillsOverlay};
use agent_tui::FocusTarget;

fn with_ctx<R>(session: Option<&str>, f: impl FnOnce(&EventContext) -> R) -> R {
    let ws = WorkspaceId::from_string("ws".to_string());
    let sid = session.map(|s| SessionId::from_string(s.to_string()));
    let ctx = EventContext {
        focus: FocusTarget::Chat,
        projects: &[],
        sessions: &[],
        model_profile: "fake",
        sidebar_left_visible: true,
        sidebar_right_visible: true,
        workspace_id: &ws,
        current_session_id: &sid,
    };
    f(&ctx)
}

fn key(code: KeyCode) -> KeyInput {
    KeyInput::plain(code)
}

fn monitor_entry(id: &str, description: &str, persistent: bool) -> MonitorEntry {
    MonitorEntry {
        monitor_id: id.to_string(),
        description: description.to_string(),
        command: format!("tail -f /var/log/{id}.log"),
        persistent,
        timeout_ms: if persistent { 0 } else { 300_000 },
    }
}

fn snapshot() -> MonitorOverlaySnapshot {
    MonitorOverlaySnapshot {
        monitors: vec![
            monitor_entry("mon_1", "Watch build logs", false),
            monitor_entry("mon_2", "Tail deploy", true),
        ],
    }
}

fn press_monitor(overlay: &mut MonitorOverlay, code: KeyCode) -> (Vec<CrossPanelEffect>, Vec<Command>) {
    with_ctx(None, |ctx| overlay.handle_event(ctx, key(code)))
}

#[test]
fn lists_monitors_from_snapshot() {
    let mut overlay = MonitorOverlay::new();
    overlay.show(snapshot());
    assert!(overlay.is_visible());
    assert_eq!(overlay.selected_index(), Some(0));
    assert_eq!(overlay.monitors().len(), 2);
    let row = monitor_row_line(&overlay.monitors()[0]);
    assert_eq!(row[0].text, "mon_1");
    assert_eq!(row[2].text, "Watch build logs");
    assert_eq!(row[6].text, "[5m timeout]");
}

#[test]
fn x_stops_selected_monitor() {
    let mut overlay = MonitorOverlay::new();
    overlay.show(snapshot());
    let (_, commands) = press_monitor(&mut overlay, KeyCode::Char('x'));
    assert!(matches!(&commands[..], [Command::MonitorStop { monitor_id }] if monitor_id == "mon_1"));
}

#[test]
fn j_k_navigates_up_and_down() {
    let mut overlay = MonitorOverlay::new();
    overlay.show(snapshot());
    assert_eq!(overlay.selected_index(), Some(0));
    let _ = press_monitor(&mut overlay, KeyCode::Char('j'));
    assert_eq!(overlay.selected_index(), Some(1));
    let _ = press_monitor(&mut overlay, KeyCode::Char('k'));
    assert_eq!(overlay.selected_index(), Some(0));
}

#[test]
fn r_emits_refresh_command() {
    let mut overlay = MonitorOverlay::new();
    overlay.show(snapshot());
    let (_, commands) = press_monitor(&mut overlay, KeyCode::Char('r'));
    assert!(matches!(&commands[..], [Command::OpenMonitorOverlay]));
}

#[test]
fn monitor_esc_hides_and_emits_dismiss_effect() {
    let mut overlay = MonitorOverlay::new();
    overlay.show(snapshot());
    let (effects, commands) = press_monitor(&mut overlay, KeyCode::Esc);
    assert!(commands.is_empty());
    assert!(effects.contains(&CrossPanelEffect::DismissMonitorOverlay));
    assert!(!overlay.is_visible());
}

#[test]
fn empty_monitors_show_placeholder() {
    let mut overlay = MonitorOverlay::new();
    overlay.show(MonitorOverlaySnapshot { monitors: Vec::new() });
    assert!(overlay.is_visible());
    assert_eq!(overlay.selected_index(), None);
}

#[test]
fn x_on_empty_list_does_nothing() {
    let mut overlay = MonitorOverlay::new();
    overlay.show(MonitorOverlaySnapshot { monitors: Vec::new() });
    let (effects, commands) = press_monitor(&mut overlay, KeyCode::Char('x'));
    assert!(commands.is_empty());
    assert!(effects.is_empty());
}

#[test]
fn monitor_timeout_and_command_formatting() {
    assert_eq!(format_timeout(300_000), "5m timeout");
    assert_eq!(format_timeout(59_999), "59s timeout");
    assert_eq!(format_timeout(60_000), "1m timeout");
    assert_eq!(truncate_command("short", 30), "short");
    assert_eq!(truncate_command("abcdefghij", 8), "abcde...");
    assert_eq!(truncate_command("abcdef", 2), "...");
}

fn entry(id: &str, active: bool) -> SkillEntry {
    SkillEntry {
        id: id.to_string(),
        name: id.to_string(),
        description: format!("{id} description"),
        source: "user".to_string(),
        activation_mode: "manual".to_string(),
        active,
    }
}

fn press_skill(overlay: &mut SkillsOverlay, code: KeyCode) -> (Vec<CrossPanelEffect>, Vec<Command>) {
    with_ctx(Some("s1"), |ctx| overlay.handle_event(ctx, key(code)))
}

#[test]
fn lists_skills_with_active_marker() {
    let mut overlay = SkillsOverlay::new();
    overlay.show(vec![entry("alpha", true), entry("beta", false)]);
    assert!(overlay.is_visible());
    assert_eq!(overlay.skills().len(), 2);
    assert_eq!(overlay.selected_index(), Some(0));
    let row = skill_row_line(&overlay.skills()[0]);
    assert_eq!(row[0].text, "● active ");
    assert_eq!(row[1].text, "alpha");
    assert_eq!(row[4].text, "  [user / manual]");
    assert_eq!(skill_row_line(&overlay.skills()[1])[0].text, "○        ");
}

#[test]
fn skills_overlay_overlay_invisible_by_default() {
    let overlay = SkillsOverlay::new();
    assert!(!overlay.is_visible());
    assert!(overlay.skills().is_empty());
}

#[test]
fn skills_overlay_j_and_k_navigate_selection() {
    let mut overlay = SkillsOverlay::new();
    overlay.show(vec![entry("alpha", false), entry("beta", true), entry("gamma", false)]);
    let _ = press_skill(&mut overlay, KeyCode::Char('j'));
    assert_eq!(overlay.selected_index(), Some(1));
    let _ = press_skill(&mut overlay, KeyCode::Char('j'));
    assert_eq!(overlay.selected_index(), Some(2));
    let _ = press_skill(&mut overlay, KeyCode::Down);
    assert_eq!(overlay.selected_index(), Some(2));
    let _ = press_skill(&mut overlay, KeyCode::Char('k'));
    assert_eq!(overlay.selected_index(), Some(1));
    let _ = press_skill(&mut overlay, KeyCode::Up);
    assert_eq!(overlay.selected_index(), Some(0));
    let _ = press_skill(&mut overlay, KeyCode::Char('k'));
    assert_eq!(overlay.selected_index(), Some(0));
}

#[test]
fn enter_emits_show_skill_for_selected() {
    let mut overlay = SkillsOverlay::new();
    overlay.show(vec![entry("alpha", false), entry("beta", false)]);
    let _ = press_skill(&mut overlay, KeyCode::Char('j'));
    let (_, commands) = press_skill(&mut overlay, KeyCode::Enter);
    assert!(matches!(&commands[0], Command::ShowSkill { skill_id } if skill_id == "beta"));
}

#[test]
fn body_effect_switches_to_detail_view() {
    let mut overlay = SkillsOverlay::new();
    overlay.show(vec![entry("alpha", false)]);
    overlay.handle_effect(CrossPanelEffect::ShowSkillBody {
        skill_id: "alpha".to_string(),
        body: "## Body\n\nDoc text".to_string(),
    });
    assert_eq!(overlay.body_skill_id(), Some("alpha"));
    assert_eq!(body_lines("## Body\n\nDoc text"), vec!["## Body", "", "Doc text"]);
    let (effects, _) = press_skill(&mut overlay, KeyCode::Esc);
    assert!(effects.is_empty());
    assert!(overlay.is_visible());
    assert_eq!(overlay.body_skill_id(), None);
}

#[test]
fn a_emits_activate_for_inactive_skill() {
    let mut overlay = SkillsOverlay::new();
    overlay.show(vec![entry("alpha", false)]);
    let (_, commands) = press_skill(&mut overlay, KeyCode::Char('a'));
    assert!(matches!(&commands[0], Command::ActivateSkill { skill_id, .. } if skill_id == "alpha"));
}

#[test]
fn a_is_no_op_for_already_active_skill() {
    let mut overlay = SkillsOverlay::new();
    overlay.show(vec![entry("alpha", true)]);
    let (_, commands) = press_skill(&mut overlay, KeyCode::Char('a'));
    assert!(commands.is_empty());
}

#[test]
fn d_emits_deactivate_for_active_skill() {
    let mut overlay = SkillsOverlay::new();
    overlay.show(vec![entry("alpha", true)]);
    let (_, commands) = press_skill(&mut overlay, KeyCode::Char('d'));
    assert!(matches!(&commands[0], Command::DeactivateSkill { skill_id, .. } if skill_id == "alpha"));
}

#[test]
fn a_without_session_emits_nothing() {
    let mut overlay = SkillsOverlay::new();
    overlay.show(vec![entry("alpha", false)]);
    let (_, commands) = with_ctx(None, |ctx| overlay.handle_event(ctx, key(KeyCode::Char('a'))));
    assert!(commands.is_empty());
}

#[test]
fn skills_overlay_esc_hides_and_emits_dismiss_effect() {
    let mut overlay = SkillsOverlay::new();
    overlay.show(vec![entry("alpha", false)]);
    let (effects, commands) = press_skill(&mut overlay, KeyCode::Esc);
    assert!(commands.is_empty());
    assert!(effects.contains(&CrossPanelEffect::DismissSkillsOverlay));
    assert!(!overlay.is_visible());
}

#[test]
fn skills_overlay_ignores_keys_when_hidden() {
    let mut overlay = SkillsOverlay::new();
    let (effects, commands) = press_skill(&mut overlay, KeyCode::Enter);
    assert!(effects.is_empty());
    assert!(commands.is_empty());
}

#[test]
fn skills_overlay_show_effect_makes_visible() {
    let mut overlay = SkillsOverlay::new();
    overlay.handle_effect(CrossPanelEffect::ShowSkillsOverlay(vec![entry("alpha", false)]));
    assert!(overlay.is_visible());
    assert_eq!(overlay.skills().len(), 1);
}

#[test]
fn show_preserves_selection_across_refresh() {
    let mut overlay = SkillsOverlay::new();
    overlay.show(vec![entry("alpha", false), entry("beta", false)]);
    let _ = press_skill(&mut overlay, KeyCode::Char('j'));
    assert_eq!(overlay.selected_index(), Some(1));
    overlay.show(vec![entry("alpha", false), entry("beta", true)]);
    assert_eq!(overlay.selected_index(), Some(1));
    assert!(overlay.skills()[1].active);
}

#[test]
fn show_falls_back_to_first_skill_when_selection_vanishes() {
    let mut overlay = SkillsOverlay::new();
    overlay.show(vec![entry("alpha", false), entry("beta", false)]);
    let _ = press_skill(&mut overlay, KeyCode::Char('j'));
    overlay.show(vec![entry("gamma", false), entry("alpha", false)]);
    assert_eq!(overlay.selected_index(), Some(0));
    overlay.show(Vec::new());
    assert_eq!(overlay.selected_index(), None);
}

#[test]
fn body_lines_follow_line_endings() {
    assert!(body_lines("").is_empty());
    assert_eq!(body_lines("a\r\nb\n"), vec!["a", "b"]);
    assert_eq!(body_lines("a\n\nb\r"), vec!["a", "", "b\r"]);
    assert_eq!(body_lines("\n"), vec![""]);
}

#[test]
fn default_monitor_and_skills_overlays_are_the_new_ones() {
    assert!(!agent_tui::monitor_overlay::MonitorOverlay::default().is_visible());
    assert!(!agent_tui::skills_overlay::SkillsOverlay::default().is_visible());
}
