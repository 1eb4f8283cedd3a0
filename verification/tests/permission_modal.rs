use agent_tui::commands::Command;
use agent_tui::effects::CrossPanelEffect;
use agent_tui::keys::{KeyCode, KeyInput};
use agent_tui::permission_modal::{PermissionModal, PermissionRequest, RiskLevel};
use agent_tui::permission_view::modal_lines;

fn request(id: &str, tool: &str, preview: &str, risk: RiskLevel) -> PermissionRequest {
    PermissionRequest {
        request_id: id.into(),
        tool_id: tool.into(),
        tool_preview: preview.into(),
        risk_level: risk,
    }
}

fn key(c: char) -> KeyInput {
    KeyInput::plain(KeyCode::Char(c))
}

fn modal_invisible_when_no_request() {
    let modal = PermissionModal::new();
    assert!(!modal.is_visible());
}

fn modal_visible_on_destructive_effect() {
    let mut modal = PermissionModal::new();
    modal.handle_effect(CrossPanelEffect::ShowPermissionPrompt(request(
        "req1",
        "shell.exec",
        "rm -rf target/",
        RiskLevel::Destructive,
    )));
    assert!(modal.is_visible());
}

fn modal_visible_on_write_risk() {
    let mut modal = PermissionModal::new();
    modal.handle_effect(CrossPanelEffect::ShowPermissionPrompt(request(
        "req2",
        "shell.exec",
        "cargo build",
        RiskLevel::Write,
    )));
    assert!(modal.is_visible());
}

fn modal_visible_on_mcp_tool_risk() {
    let mut modal = PermissionModal::new();
    modal.handle_effect(CrossPanelEffect::ShowPermissionPrompt(request(
        "req3",
        "echo",
        "MCP tool invocation",
        RiskLevel::McpTool { server_id: "my-server".into() },
    )));
    assert!(modal.is_visible());
}

fn allow_sends_decide_and_dismisses() {
    let mut modal = PermissionModal::new();
    modal.request = Some(request("req1", "shell.exec", "rm -rf target/", RiskLevel::Destructive));
    let (effects, commands) = modal.handle_key(key('y'));
    assert_eq!(commands.len(), 1);
    assert!(matches!(&commands[0], Command::DecidePermission { approved: true, .. }));
    assert!(effects.contains(&CrossPanelEffect::DismissPermissionPrompt));
    assert!(!modal.is_visible());
}

fn deny_sends_decide_false_and_dismisses() {
    let mut modal = PermissionModal::new();
    modal.request = Some(request("req1", "shell.exec", "rm -rf target/", RiskLevel::Destructive));
    let (effects, commands) = modal.handle_key(key('n'));
    assert_eq!(commands.len(), 1);
    assert!(matches!(&commands[0], Command::DecidePermission { approved: false, .. }));
    assert!(effects.contains(&CrossPanelEffect::DismissPermissionPrompt));
    assert!(!modal.is_visible());
}

fn escape_denies_and_dismisses() {
    let mut modal = PermissionModal::new();
    modal.request = Some(request("req1", "shell.exec", "rm -rf target/", RiskLevel::Destructive));
    let (_, commands) = modal.handle_key(KeyInput::plain(KeyCode::Esc));
    assert!(matches!(&commands[0], Command::DecidePermission { approved: false, .. }));
    assert!(!modal.is_visible());
}

fn trust_key_trusts_mcp_server_and_approves() {
    let mut modal = PermissionModal::new();
    modal.request = Some(request(
        "req1",
        "echo",
        "MCP tool call",
        RiskLevel::McpTool { server_id: "my-server".into() },
    ));
    let (effects, commands) = modal.handle_key(key('t'));
    assert_eq!(commands.len(), 2);
    assert!(matches!(&commands[0], Command::TrustMcpServer { server_id } if server_id == "my-server"));
    assert!(matches!(&commands[1], Command::DecidePermission { approved: true, .. }));
    assert!(effects.contains(&CrossPanelEffect::DismissPermissionPrompt));
    assert!(!modal.is_visible());
}

fn trust_key_ignored_for_non_mcp_risk() {
    let mut modal = PermissionModal::new();
    modal.request = Some(request("req1", "shell.exec", "rm -rf target/", RiskLevel::Destructive));
    let (_, commands) = modal.handle_key(key('t'));
    assert!(commands.is_empty());
    assert!(modal.is_visible());
}

fn pending_prompts_queue_and_resolve_one_at_a_time() {
    let mut modal = PermissionModal::new();
    modal.handle_effect(CrossPanelEffect::ShowPermissionPrompt(request(
        "req1",
        "shell.exec",
        "write file",
        RiskLevel::Write,
    )));
    modal.handle_effect(CrossPanelEffect::ShowPermissionPrompt(request(
        "req2",
        "shell.exec",
        "delete file",
        RiskLevel::Destructive,
    )));
    assert_eq!(modal.request.as_ref().map(|req| req.request_id.as_str()), Some("req1"));

    let (_, commands) = modal.handle_key(key('y'));
    assert_eq!(commands, vec![Command::DecidePermission { request_id: "req1".into(), approved: true }]);
    assert!(modal.is_visible());
    assert_eq!(modal.request.as_ref().map(|req| req.request_id.as_str()), Some("req2"));

    let (_, commands) = modal.handle_key(key('n'));
    assert_eq!(commands, vec![Command::DecidePermission { request_id: "req2".into(), approved: false }]);
    assert!(!modal.is_visible());
}

#[test]
fn permission_modal_modal_invisible_when_no_request() {
    modal_invisible_when_no_request();
}

#[test]
fn tests_modal_invisible_when_no_request() {
    modal_invisible_when_no_request();
}

#[test]
fn permission_modal_modal_visible_on_destructive_effect() {
    modal_visible_on_destructive_effect();
}

#[test]
fn tests_modal_visible_on_destructive_effect() {
    modal_visible_on_destructive_effect();
}

#[test]
fn permission_modal_modal_visible_on_write_risk() {
    modal_visible_on_write_risk();
}

#[test]
fn tests_modal_visible_on_write_risk() {
    modal_visible_on_write_risk();
}

#[test]
fn permission_modal_modal_visible_on_mcp_tool_risk() {
    modal_visible_on_mcp_tool_risk();
}

#[test]
fn tests_modal_visible_on_mcp_tool_risk() {
    modal_visible_on_mcp_tool_risk();
}

#[test]
fn permission_modal_allow_sends_decide_and_dismisses() {
    allow_sends_decide_and_dismisses();
}

#[test]
fn tests_allow_sends_decide_and_dismisses() {
    allow_sends_decide_and_dismisses();
}

#[test]
fn permission_modal_deny_sends_decide_false_and_dismisses() {
    deny_sends_decide_false_and_dismisses();
}

#[test]
fn tests_deny_sends_decide_false_and_dismisses() {
    deny_sends_decide_false_and_dismisses();
}

#[test]
fn permission_modal_escape_denies_and_dismisses() {
    escape_denies_and_dismisses();
}

#[test]
fn tests_escape_denies_and_dismisses() {
    escape_denies_and_dismisses();
}

#[test]
fn permission_modal_trust_key_trusts_mcp_server_and_approves() {
    trust_key_trusts_mcp_server_and_approves();
}

#[test]
fn tests_trust_key_trusts_mcp_server_and_approves() {
    trust_key_trusts_mcp_server_and_approves();
}

#[test]
fn permission_modal_trust_key_ignored_for_non_mcp_risk() {
    trust_key_ignored_for_non_mcp_risk();
}

#[test]
fn tests_trust_key_ignored_for_non_mcp_risk() {
    trust_key_ignored_for_non_mcp_risk();
}

#[test]
fn permission_modal_pending_prompts_queue_and_resolve_one_at_a_time() {
    pending_prompts_queue_and_resolve_one_at_a_time();
}

#[test]
fn tests_pending_prompts_queue_and_resolve_one_at_a_time() {
    pending_prompts_queue_and_resolve_one_at_a_time();
}

#[test]
fn duplicate_request_is_queued_once() {
    let mut modal = PermissionModal::new();
    let r = request("req1", "shell.exec", "ls", RiskLevel::Write);
    modal.enqueue_request(r.clone());
    modal.enqueue_request(r);
    let (_, commands) = modal.handle_key(key('y'));
    assert_eq!(commands.len(), 1);
    assert!(!modal.is_visible());
}

#[test]
fn resolving_unknown_request_changes_nothing() {
    let mut modal = PermissionModal::new();
    modal.enqueue_request(request("req1", "shell.exec", "ls", RiskLevel::Write));
    modal.handle_effect(CrossPanelEffect::ResolvePermissionPrompt { request_id: "other".into(), approved: true });
    assert_eq!(modal.request.as_ref().map(|r| r.request_id.as_str()), Some("req1"));
}

#[test]
fn modal_lines_show_queue_history_and_trust_hint() {
    let mut modal = PermissionModal::new();
    assert!(modal_lines(&modal).is_none());
    modal.enqueue_request(request("a", "echo", "call", RiskLevel::McpTool { server_id: "srv".into() }));
    modal.enqueue_request(request("b", "rm", "rm -rf x", RiskLevel::Destructive));
    let lines = modal_lines(&modal).expect("a request is on screen");
    assert_eq!(lines[0][0].text, "Permission Center");
    assert_eq!(lines[0][1].text, "  2 pending");
    assert_eq!(lines[1][0].text, "🔌 MCP Tool");
    assert_eq!(lines[3][1].text, "[MCP] srv/echo");
    let texts: Vec<String> = lines.iter().map(|l| l.iter().map(|s| s.text.clone()).collect::<String>()).collect();
    assert!(texts.contains(&"Pending queue".to_string()));
    assert!(texts.contains(&"> 1 [MCP] srv/echo".to_string()));
    assert!(texts.contains(&"  2 [destructive] rm".to_string()));
    assert_eq!(texts.last().unwrap(), "[Y] Allow once  [N] Deny  [T] Trust server  [Esc] Cancel");
    let _ = modal.handle_key(key('y'));
    let lines = modal_lines(&modal).expect("the second request is on screen");
    let texts: Vec<String> = lines.iter().map(|l| l.iter().map(|s| s.text.clone()).collect::<String>()).collect();
    assert!(texts.contains(&"This operation cannot be undone.".to_string()));
    assert!(texts.contains(&"Recent".to_string()));
    assert!(texts.contains(&"allowed echo".to_string()));
    assert_eq!(texts.last().unwrap(), "[Y] Allow once  [N] Deny  [Esc] Cancel");
}

#[test]
fn default_permission_modal_is_the_new_one() {
    let modal = agent_tui::permission_modal::PermissionModal::default();
    assert!(modal.request.is_none());
    assert!(modal.pending_requests.is_empty());
    assert!(modal.history.is_empty());
}
