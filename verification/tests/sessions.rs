use agent_tui::selection::reset_selection;
use agent_tui::sessions::labels::sessions_list_title;
use std::sync::atomic::{AtomicUsize, Ordering};

use agent_tui::commands::Command;
use agent_tui::context::EventContext;
use agent_tui::effects::CrossPanelEffect;
use agent_tui::ids::{ProjectId, SessionId, WorkspaceId};
use agent_tui::keys::{KeyCode, KeyInput};
use agent_tui::sessions::labels::{
    archive_stats_line, archived_session_row_line, project_row_line, session_row_line,
    session_state_icon,
};
use agent_tui::sessions::panel::SessionsPanel;
use agent_tui::sessions::types::{
    archive_stats, session_list_rows, ProjectGitStatus, ProjectGitStatusKind, ProjectInfo,
    ProjectSessionVisibility, SessionInfo, SessionListRow, SessionState,
};
use agent_tui::styled::StyledSpan;
use agent_tui::FocusTarget;

static NEXT_ID: AtomicUsize = AtomicUsize::new(0);

fn fresh_session_id() -> SessionId {
    let n = NEXT_ID.fetch_add(1, Ordering::SeqCst);
    SessionId::from_string(format!("ses_{n}"))
}

fn make_session(title: &str, state: SessionState, pinned: bool) -> SessionInfo {
    SessionInfo {
        id: fresh_session_id(),
        title: title.into(),
        model_profile: "fast".into(),
        state,
        pinned,
        archived: false,
        project_id: None,
        worktree_path: None,
        branch: None,
        visibility: None,
    }
}

fn make_archived_session(title: &str) -> SessionInfo {
    SessionInfo {
        archived: true,
        ..make_session(title, SessionState::Idle, false)
    }
}

fn make_project(title: &str) -> ProjectInfo {
    ProjectInfo {
        id: ProjectId::from_string(format!("prj_{title}")),
        display_name: title.into(),
        root_path: format!("/tmp/{title}"),
        expanded: true,
        git_status: None,
        instruction_summary: None,
    }
}

fn make_project_session(
    title: &str,
    project_id: ProjectId,
    branch: Option<&str>,
    worktree_path: Option<&str>,
) -> SessionInfo {
    SessionInfo {
        project_id: Some(project_id),
        branch: branch.map(str::to_string),
        worktree_path: worktree_path.map(str::to_string),
        visibility: Some(ProjectSessionVisibility::Visible),
        ..make_session(title, SessionState::Idle, false)
    }
}

fn press(
    panel: &mut SessionsPanel,
    projects: &[ProjectInfo],
    sessions: &[SessionInfo],
    current: &Option<SessionId>,
    code: KeyCode,
) -> (Vec<CrossPanelEffect>, Vec<Command>) {
    let workspace = WorkspaceId::from_string("ws".to_string());
    let ctx = EventContext {
        focus: FocusTarget::Sessions,
        projects,
        sessions,
        model_profile: "fast",
        sidebar_left_visible: true,
        sidebar_right_visible: false,
        workspace_id: &workspace,
        current_session_id: current,
    };
    panel.handle_event(&ctx, KeyInput::plain(code))
}

fn line_text(spans: &[StyledSpan]) -> String {
    spans.iter().map(|s| s.text.clone()).collect()
}

fn filtered_sessions_returns_all_when_no_query() {
    let panel = SessionsPanel::new();
    let sessions = vec![
        make_session("main", SessionState::Active, false),
        make_session("debug", SessionState::Idle, false),
    ];
    let filtered = panel.filtered_sessions(&sessions);
    assert_eq!(filtered.len(), 2);
}

fn filtered_sessions_matches_title_case_insensitive() {
    let mut panel = SessionsPanel::new();
    panel.search_query = Some("MAIN".into());
    let sessions = vec![
        make_session("main session", SessionState::Active, false),
        make_session("debug", SessionState::Idle, false),
    ];
    let filtered = panel.filtered_sessions(&sessions);
    assert_eq!(filtered.len(), 1);
    assert_eq!(filtered[0].title, "main session");
}

fn filtered_sessions_excludes_archived_sessions() {
    let panel = SessionsPanel::new();
    let sessions = vec![
        make_session("visible", SessionState::Active, false),
        make_archived_session("archived"),
    ];
    let filtered = panel.filtered_sessions(&sessions);
    assert_eq!(filtered.len(), 1);
    assert_eq!(filtered[0].title, "visible");
}

fn selected_session_id_returns_correct_id() {
    let mut panel = SessionsPanel::new();
    let sessions = vec![
        make_session("first", SessionState::Active, false),
        make_session("second", SessionState::Idle, false),
    ];
    panel.state.select(Some(1));
    assert_eq!(panel.selected_session_id(&sessions), Some(sessions[1].id.clone()));
}

fn session_state_icon_values() {
    assert_eq!(session_state_icon(&SessionState::Active).0, "●");
    assert_eq!(session_state_icon(&SessionState::Idle).0, "○");
    assert_eq!(session_state_icon(&SessionState::Error("err".into())).0, "✕");
    assert_eq!(session_state_icon(&SessionState::AwaitingPermission).0, "⚠");
}

fn context_menu_key_opens_session_actions_for_selection() {
    let mut panel = SessionsPanel::new();
    let sessions = vec![
        make_session("main", SessionState::Active, false),
        make_session("debug", SessionState::Idle, false),
    ];
    panel.state.select(Some(1));
    let current = Some(sessions[0].id.clone());
    let (effects, commands) = press(&mut panel, &[], &sessions, &current, KeyCode::Char('x'));
    assert!(effects.is_empty());
    assert!(commands.is_empty());
    assert!(panel.context_menu_open);
}

fn action_overlay_emits_archive_for_visible_session() {
    let mut panel = SessionsPanel::new();
    let sessions = vec![
        make_session("main", SessionState::Active, false),
        make_session("debug", SessionState::Idle, false),
    ];
    panel.state.select(Some(1));
    panel.context_menu_open = true;
    let current = Some(sessions[0].id.clone());
    let (_, commands) = press(&mut panel, &[], &sessions, &current, KeyCode::Char('a'));
    assert!(matches!(
        commands.as_slice(),
        [Command::ArchiveSession { session_id }] if session_id == &sessions[1].id
    ));
    assert!(panel.context_menu_open);
}

fn archive_manager_emits_restore_for_archived_session() {
    let mut panel = SessionsPanel::new();
    let sessions = vec![
        make_session("main", SessionState::Active, false),
        make_archived_session("old"),
    ];
    panel.open_archive_manager(&sessions);
    let current = Some(sessions[0].id.clone());
    let (_, commands) = press(&mut panel, &[], &sessions, &current, KeyCode::Char('r'));
    assert!(matches!(
        commands.as_slice(),
        [Command::RestoreSession { session_id }] if session_id == &sessions[1].id
    ));
    assert!(!panel.archive_manager_open);
}

fn archive_manager_emits_delete_for_archived_session() {
    let mut panel = SessionsPanel::new();
    let sessions = vec![make_archived_session("old")];
    panel.open_archive_manager(&sessions);
    let current = None;
    let (_, commands) = press(&mut panel, &[], &sessions, &current, KeyCode::Char('d'));
    assert!(matches!(
        commands.as_slice(),
        [Command::DeleteSession { session_id }] if session_id == &sessions[0].id
    ));
    assert!(panel.archive_manager_open);
}

fn rename_inline_mode_emits_rename_command() {
    let mut panel = SessionsPanel::new();
    let sessions = vec![make_session("main", SessionState::Active, false)];
    panel.context_menu_open = true;
    let current = Some(sessions[0].id.clone());
    let (_, commands) = press(&mut panel, &[], &sessions, &current, KeyCode::Char('r'));
    assert!(commands.is_empty());
    let (_, commands) = press(&mut panel, &[], &sessions, &current, KeyCode::Char('!'));
    assert!(commands.is_empty());
    let (_, commands) = press(&mut panel, &[], &sessions, &current, KeyCode::Enter);
    assert!(matches!(
        commands.as_slice(),
        [Command::RenameSession { session_id, title }]
            if session_id == &sessions[0].id && title == "main!"
    ));
    assert!(!panel.context_menu_open);
}

fn render_sessions_shows_projects_and_branch_worktree_metadata() {
    let project = make_project("alpha");
    let sessions = vec![make_project_session(
        "Worktree session",
        project.id.clone(),
        Some("feat/tui"),
        Some("/tmp/alpha/.kairox/worktrees/feat-tui"),
    )];
    let rows = session_list_rows(std::slice::from_ref(&project), &sessions);
    assert_eq!(
        rows,
        vec![
            SessionListRow::Project(project.id.clone()),
            SessionListRow::Session(sessions[0].id.clone()),
        ]
    );
    let project_text = line_text(&project_row_line(&project, &sessions));
    assert!(project_text.contains("alpha"));
    assert!(project_text.contains("(1)"));
    let session_text = line_text(&session_row_line(&sessions[0], true));
    assert!(session_text.contains("Worktree session"));
    assert!(session_text.contains("feat/tui"));
    assert!(session_text.contains("worktrees/feat-tui"));
}

fn session_list_rows_excludes_archived_sessions_from_primary_list() {
    let active = make_session("active", SessionState::Idle, false);
    let archived = make_archived_session("archived");
    let rows = session_list_rows(&[], &[active.clone(), archived]);
    assert_eq!(rows, vec![SessionListRow::Session(active.id)]);
}

fn archive_stats_count_archived_sessions_and_projects() {
    let project = make_project("alpha");
    let mut project_archived =
        make_project_session("archived project", project.id.clone(), Some("main"), None);
    project_archived.archived = true;
    let sessions = vec![
        make_session("active", SessionState::Idle, false),
        project_archived,
        make_archived_session("loose archived"),
    ];
    let stats = archive_stats(&sessions);
    assert_eq!(stats.total, 2);
    assert_eq!(stats.projects, 1);
}

fn render_archive_manager_shows_stats_and_archived_rows() {
    let project = make_project("alpha");
    let mut project_archived =
        make_project_session("archived project", project.id.clone(), Some("main"), None);
    project_archived.archived = true;
    let sessions = vec![project_archived, make_archived_session("loose archived")];
    let mut panel = SessionsPanel::new();
    assert!(panel.open_archive_manager(&sessions));

    let stats = line_text(&archive_stats_line(archive_stats(&sessions)));
    assert!(stats.contains("Total: 2"));
    assert!(stats.contains("Projects: 1"));
    let row = line_text(&archived_session_row_line(&sessions[0], std::slice::from_ref(&project)));
    assert!(row.contains("archived project"));
    assert!(row.contains("alpha"));
}

fn archive_manager_restore_shortcut_emits_restore_for_selected_archived_session() {
    let mut panel = SessionsPanel::new();
    let sessions = vec![make_archived_session("first"), make_archived_session("second")];
    assert!(panel.open_archive_manager(&sessions));
    panel.archive_cursor = 1;
    let (_, commands) = press(&mut panel, &[], &sessions, &None, KeyCode::Char('r'));
    assert!(matches!(
        commands.as_slice(),
        [Command::RestoreSession { session_id }] if session_id == &sessions[1].id
    ));
    assert!(!panel.archive_manager_open);
}

fn archive_manager_delete_shortcut_emits_delete_for_selected_archived_session() {
    let mut panel = SessionsPanel::new();
    let sessions = vec![make_archived_session("archived")];
    assert!(panel.open_archive_manager(&sessions));
    let (_, commands) = press(&mut panel, &[], &sessions, &None, KeyCode::Char('d'));
    assert!(matches!(
        commands.as_slice(),
        [Command::DeleteSession { session_id }] if session_id == &sessions[0].id
    ));
    assert!(panel.archive_manager_open);
}

fn project_row_context_menu_emits_create_draft_for_empty_project() {
    let project = make_project("empty");
    let projects = vec![project.clone()];
    let sessions: Vec<SessionInfo> = Vec::new();
    let mut panel = SessionsPanel::new();
    panel.context_menu_open = true;
    let (_, commands) = press(&mut panel, &projects, &sessions, &None, KeyCode::Char('n'));
    assert!(matches!(
        commands.as_slice(),
        [Command::CreateProjectDraftSession { project_id }] if project_id == &project.id
    ));
    assert!(!panel.context_menu_open);
}

fn project_row_context_menu_emits_expand_persistence_command() {
    let mut project = make_project("collapsed");
    project.expanded = false;
    let projects = vec![project.clone()];
    let sessions: Vec<SessionInfo> = Vec::new();
    let mut panel = SessionsPanel::new();
    panel.context_menu_open = true;
    let (_, commands) = press(&mut panel, &projects, &sessions, &None, KeyCode::Char('e'));
    assert!(matches!(
        commands.as_slice(),
        [Command::SetProjectExpanded { project_id, expanded }]
            if project_id == &project.id && *expanded
    ));
    assert!(!panel.context_menu_open);
}

fn render_project_rows_show_git_branch_dirty_and_missing_path() {
    let mut clean = make_project("clean");
    clean.git_status = Some(ProjectGitStatus {
        kind: ProjectGitStatusKind::Clean,
        branch: Some("main".into()),
        worktree_path: clean.root_path.clone(),
        message: None,
    });
    let mut dirty = make_project("changed");
    dirty.git_status = Some(ProjectGitStatus {
        kind: ProjectGitStatusKind::Dirty,
        branch: Some("feat/tui".into()),
        worktree_path: dirty.root_path.clone(),
        message: None,
    });
    let mut missing = make_project("missing");
    missing.git_status = Some(ProjectGitStatus {
        kind: ProjectGitStatusKind::MissingPath,
        branch: None,
        worktree_path: missing.root_path.clone(),
        message: Some("path does not exist".into()),
    });
    let text: String = [clean, dirty, missing]
        .iter()
        .map(|p| line_text(&project_row_line(p, &[])))
        .collect::<Vec<_>>()
        .join("\n");
    assert!(text.contains("main"));
    assert!(text.contains("dirty"));
    assert!(text.contains("feat/tui"));
    assert!(text.contains("missing path"));
}

fn action_overlay_emits_create_project_draft_for_project_session() {
    let project = make_project("alpha");
    let sessions = vec![make_project_session(
        "alpha session",
        project.id.clone(),
        Some("main"),
        Some("/tmp/alpha"),
    )];
    let mut panel = SessionsPanel::new();
    panel.context_menu_open = true;
    let current = Some(sessions[0].id.clone());
    let (_, commands) = press(
        &mut panel,
        std::slice::from_ref(&project),
        &sessions,
        &current,
        KeyCode::Char('n'),
    );
    assert!(matches!(
        commands.as_slice(),
        [Command::CreateProjectDraftSession { project_id }] if project_id == &project.id
    ));
    assert!(!panel.context_menu_open);
}

fn worktree_input_emits_create_worktree_session_with_branch() {
    let project = make_project("alpha");
    let sessions = vec![make_project_session(
        "alpha session",
        project.id.clone(),
        Some("main"),
        Some("/tmp/alpha"),
    )];
    let mut panel = SessionsPanel::new();
    panel.context_menu_open = true;
    let current = Some(sessions[0].id.clone());
    let projects = std::slice::from_ref(&project);
    let (_, commands) = press(&mut panel, projects, &sessions, &current, KeyCode::Char('w'));
    assert!(commands.is_empty());
    for ch in "feat/tui-parity".chars() {
        let (_, commands) = press(&mut panel, projects, &sessions, &current, KeyCode::Char(ch));
        assert!(commands.is_empty());
    }
    let (_, commands) = press(&mut panel, projects, &sessions, &current, KeyCode::Enter);
    assert!(matches!(
        commands.as_slice(),
        [Command::CreateProjectWorktreeSession { project_id, branch_name }]
            if project_id == &project.id && branch_name == "feat/tui-parity"
    ));
    assert!(!panel.context_menu_open);
}

#[test]
fn tests_filtered_sessions_returns_all_when_no_query() { filtered_sessions_returns_all_when_no_query(); }
#[test]
fn tests_filtered_sessions_matches_title_case_insensitive() { filtered_sessions_matches_title_case_insensitive(); }
#[test]
fn tests_filtered_sessions_excludes_archived_sessions() { filtered_sessions_excludes_archived_sessions(); }
#[test]
fn tests_selected_session_id_returns_correct_id() { selected_session_id_returns_correct_id(); }
#[test]
fn tests_session_state_icon_values() { session_state_icon_values(); }
#[test]
fn tests_context_menu_key_opens_session_actions_for_selection() { context_menu_key_opens_session_actions_for_selection(); }
#[test]
fn tests_action_overlay_emits_archive_for_visible_session() { action_overlay_emits_archive_for_visible_session(); }
#[test]
fn tests_archive_manager_emits_restore_for_archived_session() { archive_manager_emits_restore_for_archived_session(); }
#[test]
fn tests_archive_manager_emits_delete_for_archived_session() { archive_manager_emits_delete_for_archived_session(); }
#[test]
fn tests_rename_inline_mode_emits_rename_command() { rename_inline_mode_emits_rename_command(); }
#[test]
fn tests_render_sessions_shows_projects_and_branch_worktree_metadata() { render_sessions_shows_projects_and_branch_worktree_metadata(); }
#[test]
fn tests_session_list_rows_excludes_archived_sessions_from_primary_list() { session_list_rows_excludes_archived_sessions_from_primary_list(); }
#[test]
fn tests_archive_stats_count_archived_sessions_and_projects() { archive_stats_count_archived_sessions_and_projects(); }
#[test]
fn tests_render_archive_manager_shows_stats_and_archived_rows() { render_archive_manager_shows_stats_and_archived_rows(); }
#[test]
fn tests_archive_manager_restore_shortcut_emits_restore_for_selected_archived_session() { archive_manager_restore_shortcut_emits_restore_for_selected_archived_session(); }
#[test]
fn tests_archive_manager_delete_shortcut_emits_delete_for_selected_archived_session() { archive_manager_delete_shortcut_emits_delete_for_selected_archived_session(); }
#[test]
fn tests_project_row_context_menu_emits_create_draft_for_empty_project() { project_row_context_menu_emits_create_draft_for_empty_project(); }
#[test]
fn tests_project_row_context_menu_emits_expand_persistence_command() { project_row_context_menu_emits_expand_persistence_command(); }
#[test]
fn tests_render_project_rows_show_git_branch_dirty_and_missing_path() { render_project_rows_show_git_branch_dirty_and_missing_path(); }
#[test]
fn tests_action_overlay_emits_create_project_draft_for_project_session() { action_overlay_emits_create_project_draft_for_project_session(); }
#[test]
fn tests_worktree_input_emits_create_worktree_session_with_branch() { worktree_input_emits_create_worktree_session_with_branch(); }

#[test]
fn sessions_filtered_sessions_returns_all_when_no_query() { filtered_sessions_returns_all_when_no_query(); }
#[test]
fn sessions_filtered_sessions_matches_title_case_insensitive() { filtered_sessions_matches_title_case_insensitive(); }
#[test]
fn sessions_filtered_sessions_excludes_archived_sessions() { filtered_sessions_excludes_archived_sessions(); }
#[test]
fn sessions_selected_session_id_returns_correct_id() { selected_session_id_returns_correct_id(); }
#[test]
fn sessions_session_state_icon_values() { session_state_icon_values(); }
#[test]
fn sessions_context_menu_key_opens_session_actions_for_selection() { context_menu_key_opens_session_actions_for_selection(); }
#[test]
fn sessions_archive_manager_emits_restore_for_archived_session() { archive_manager_emits_restore_for_archived_session(); }
#[test]
fn sessions_rename_inline_mode_emits_rename_command() { rename_inline_mode_emits_rename_command(); }
#[test]
fn sessions_render_sessions_shows_projects_and_branch_worktree_metadata() { render_sessions_shows_projects_and_branch_worktree_metadata(); }
#[test]
fn sessions_session_list_rows_excludes_archived_sessions_from_primary_list() { session_list_rows_excludes_archived_sessions_from_primary_list(); }
#[test]
fn sessions_archive_stats_count_archived_sessions_and_projects() { archive_stats_count_archived_sessions_and_projects(); }
#[test]
fn sessions_render_archive_manager_shows_stats_and_archived_rows() { render_archive_manager_shows_stats_and_archived_rows(); }
#[test]
fn sessions_archive_manager_restore_shortcut_emits_restore_for_selected_archived_session() { archive_manager_restore_shortcut_emits_restore_for_selected_archived_session(); }
#[test]
fn sessions_project_row_context_menu_emits_create_draft_for_empty_project() { project_row_context_menu_emits_create_draft_for_empty_project(); }
#[test]
fn sessions_project_row_context_menu_emits_expand_persistence_command() { project_row_context_menu_emits_expand_persistence_command(); }
#[test]
fn sessions_render_project_rows_show_git_branch_dirty_and_missing_path() { render_project_rows_show_git_branch_dirty_and_missing_path(); }
#[test]
fn sessions_action_overlay_emits_create_project_draft_for_project_session() { action_overlay_emits_create_project_draft_for_project_session(); }
#[test]
fn sessions_worktree_input_emits_create_worktree_session_with_branch() { worktree_input_emits_create_worktree_session_with_branch(); }

#[test]
fn archive_stats_line_reads_counts() {
    let line = archive_stats_line(archive_stats(&[make_archived_session("a")]));
    assert_eq!(line_text(&line), "Total: 1  Projects: 0");
}

#[test]
fn project_instruction_label_names_first_two_files() {
    use_instruction_label();
}

fn use_instruction_label() {
    let summary = agent_tui::sessions::types::ProjectInstructionSummary {
        source_paths: vec![
            "/repo/AGENTS.md".to_string(),
            "/repo/docs/README.md".to_string(),
            "/repo/docs/extra.md".to_string(),
        ],
    };
    assert_eq!(
        agent_tui::sessions::labels::project_instruction_label(&summary),
        "instructions AGENTS.md, README.md"
    );
    let none = agent_tui::sessions::types::ProjectInstructionSummary { source_paths: Vec::new() };
    assert_eq!(agent_tui::sessions::labels::project_instruction_label(&none), "instructions none");
}

#[test]
fn project_row_lists_instruction_files() {
    let mut project = make_project("alpha");
    project.instruction_summary = Some(agent_tui::sessions::types::ProjectInstructionSummary {
        source_paths: vec!["/tmp/alpha/AGENTS.md".to_string()],
    });
    let text = line_text(&project_row_line(&project, &[]));
    assert_eq!(text, "▾ alpha (0) · instructions AGENTS.md");
}

#[test]
fn drawn_list_selection_resets_past_the_end_to_first_row() {
    assert_eq!(reset_selection(0, Some(2)), None);
    assert_eq!(reset_selection(3, None), Some(0));
    assert_eq!(reset_selection(3, Some(5)), Some(0));
    assert_eq!(reset_selection(3, Some(3)), Some(0));
    assert_eq!(reset_selection(3, Some(2)), Some(2));
}

#[test]
fn sessions_list_title_counts_archived_sessions() {
    let none = archive_stats(&[make_session("a", SessionState::Idle, false)]);
    assert_eq!(sessions_list_title(none), " Projects / Sessions ");
    let some = archive_stats(&[make_archived_session("a"), make_archived_session("b")]);
    assert_eq!(sessions_list_title(some), " Projects / Sessions · [A] Archive 2 ");
}

#[test]
fn default_sessions_panel_is_the_new_one() {
    let panel = SessionsPanel::default();
    assert!(!panel.context_menu_open);
    assert!(!panel.archive_manager_open);
}

#[test]
fn empty_search_query_keeps_every_listed_session() {
    let mut panel = SessionsPanel::new();
    panel.search_query = Some(String::new());
    let sessions = vec![
        make_session("main", SessionState::Active, false),
        make_session("debug", SessionState::Idle, false),
        make_archived_session("old"),
    ];
    assert_eq!(panel.filtered_sessions(&sessions).len(), 2);
}
