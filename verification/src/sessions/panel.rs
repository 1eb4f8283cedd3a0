//! The sessions panel's state, the actions offered for the highlighted row,
//! and what each key does.

use vstd::prelude::*;

use crate::commands::Command;
use crate::context::EventContext;
use crate::effects::CrossPanelEffect;
use crate::ids::{ProjectId, SessionId};
use crate::keys::{KeyCode, KeyInput};
use crate::selection::ListSelection;
use crate::sessions::types::{
    archive_stats, archived_sessions, archived_spec, find_project, find_project_index, find_session,
    find_session_index, list_rows, session_list_rows, ProjectInfo, SessionInfo, SessionListRow,
};
use crate::text::{is_blank, pop_char, pop_seq, push_char, trim, trim_seq};

verus! {

/// What can be done to a project or session row.
#[derive(Debug, Clone, Copy, PartialEq, Eq, Structural)]
pub enum SessionAction {
    Rename,
    Archive,
    Restore,
    Delete,
    RemoveProject,
    MoveProjectUp,
    MoveProjectDown,
    ToggleExpanded,
    NewDraft,
    NewWorktree,
    GitStatus,
    InitGit,
    Instructions,
}

/// What the open action overlay is doing.
#[derive(Debug, PartialEq, Eq)]
pub enum SessionActionMode {
    Menu,
    RenameSession { session_id: SessionId, title: String },
    RenameProject { project_id: ProjectId, display_name: String },
    Worktree { project_id: ProjectId, branch_name: String },
}

/// The row an action applies to: a position in the projects or the
/// sessions that the panel was given.
#[derive(Debug, Clone, Copy, PartialEq, Eq, Structural)]
pub enum SelectedRow {
    Project(usize),
    Session(usize),
}

/// The project or session an action applies to.
pub enum Target {
    Project(ProjectInfo),
    Session(SessionInfo),
}

/// The sessions panel.
pub struct SessionsPanel {
    pub focused: bool,
    pub state: ListSelection,
    pub context_menu_open: bool,
    pub archive_manager_open: bool,
    pub search_query: Option<String>,
    pub action_cursor: usize,
    pub archive_cursor: usize,
    pub action_mode: SessionActionMode,
}

/// The action overlay's mode, with texts as character sequences.
pub enum ModeView {
    Menu,
    RenameSession { session_id: SessionId, title: Seq<char> },
    RenameProject { project_id: ProjectId, name: Seq<char> },
    Worktree { project_id: ProjectId, branch: Seq<char> },
}

/// The abstract state of the panel.
pub struct PanelView {
    pub focused: bool,
    pub selected: Option<usize>,
    pub menu_open: bool,
    pub archive_open: bool,
    pub search_query: Option<String>,
    pub action_cursor: usize,
    pub archive_cursor: usize,
    pub mode: ModeView,
}

impl SessionActionMode {
    pub open spec fn mode_view(&self) -> ModeView {
        match self {
            SessionActionMode::Menu => ModeView::Menu,
            SessionActionMode::RenameSession { session_id, title } => ModeView::RenameSession {
                session_id: *session_id,
                title: title@,
            },
            SessionActionMode::RenameProject { project_id, display_name } =>
                ModeView::RenameProject { project_id: *project_id, name: display_name@ },
            SessionActionMode::Worktree { project_id, branch_name } => ModeView::Worktree {
                project_id: *project_id,
                branch: branch_name@,
            },
        }
    }
}

impl View for SessionsPanel {
    type V = PanelView;

    open spec fn view(&self) -> PanelView {
        PanelView {
            focused: self.focused,
            selected: self.state.index,
            menu_open: self.context_menu_open,
            archive_open: self.archive_manager_open,
            search_query: self.search_query,
            action_cursor: self.action_cursor,
            archive_cursor: self.archive_cursor,
            mode: self.action_mode.mode_view(),
        }
    }
}

/// The project or session shown on the highlighted row.
pub open spec fn target_spec(sel: Option<usize>, projects: Seq<ProjectInfo>, sessions: Seq<
    SessionInfo,
>) -> Option<Target> {
    let rows = list_rows(projects, sessions);
    match sel {
        Some(i) => if i < rows.len() {
            match rows[i as int] {
                SessionListRow::Project(pid) => match find_project(projects, pid.value@) {
                    Some(p) => Some(Target::Project(p)),
                    None => None,
                },
                SessionListRow::Session(sid) => match find_session(sessions, sid.value@) {
                    Some(s) => Some(Target::Session(s)),
                    None => None,
                },
            }
        } else {
            None
        },
        None => None,
    }
}

/// The target named by a row position.
pub open spec fn target_of(row: SelectedRow, projects: Seq<ProjectInfo>, sessions: Seq<SessionInfo>) -> Target {
    match row {
        SelectedRow::Project(i) => Target::Project(projects[i as int]),
        SelectedRow::Session(i) => Target::Session(sessions[i as int]),
    }
}

/// The row position points into the given projects or sessions.
pub open spec fn row_in_range(row: SelectedRow, projects: Seq<ProjectInfo>, sessions: Seq<SessionInfo>) -> bool {
    match row {
        SelectedRow::Project(i) => i < projects.len(),
        SelectedRow::Session(i) => i < sessions.len(),
    }
}

/// Actions offered for a project or session, in menu order.
pub open spec fn actions_for(t: Target) -> Seq<SessionAction> {
    match t {
        Target::Project(_) => seq![
            SessionAction::Rename,
            SessionAction::RemoveProject,
            SessionAction::MoveProjectUp,
            SessionAction::MoveProjectDown,
            SessionAction::ToggleExpanded,
            SessionAction::NewDraft,
            SessionAction::NewWorktree,
            SessionAction::GitStatus,
            SessionAction::InitGit,
            SessionAction::Instructions,
        ],
        Target::Session(s) => if s.archived {
            seq![SessionAction::Restore, SessionAction::Delete]
        } else if s.project_id is Some {
            seq![
                SessionAction::Rename,
                SessionAction::Archive,
                SessionAction::NewDraft,
                SessionAction::NewWorktree,
            ]
        } else {
            seq![SessionAction::Rename, SessionAction::Archive]
        },
    }
}

/// Actions offered for the highlighted row (none when nothing is there).
pub open spec fn available_spec(v: PanelView, projects: Seq<ProjectInfo>, sessions: Seq<SessionInfo>) -> Seq<
    SessionAction,
> {
    match target_spec(v.selected, projects, sessions) {
        Some(t) => actions_for(t),
        None => Seq::empty(),
    }
}

/// The action overlay closed: cursor back at the top, menu mode.
pub open spec fn close_menu_spec(v: PanelView) -> PanelView {
    PanelView { menu_open: false, action_cursor: 0, mode: ModeView::Menu, ..v }
}

/// The archive manager closed, cursor back at the top.
pub open spec fn close_archive_spec(v: PanelView) -> PanelView {
    PanelView { archive_open: false, archive_cursor: 0, ..v }
}

/// The state after `open_action_menu`.
pub open spec fn open_menu_spec(v: PanelView, projects: Seq<ProjectInfo>, sessions: Seq<SessionInfo>) -> PanelView {
    if target_spec(v.selected, projects, sessions) is None {
        close_menu_spec(v)
    } else {
        PanelView {
            menu_open: true,
            action_cursor: 0,
            mode: ModeView::Menu,
            ..close_archive_spec(v)
        }
    }
}

/// The state after `open_archive_manager`.
pub open spec fn open_archive_spec(v: PanelView, sessions: Seq<SessionInfo>) -> PanelView {
    let total = archived_spec(sessions).len();
    let last = if total == 0 { 0 } else { total - 1 };
    PanelView {
        archive_open: true,
        archive_cursor: if v.archive_cursor < last { v.archive_cursor } else { last as usize },
        ..close_menu_spec(v)
    }
}

/// The state after `start_rename_for_selected`.
pub open spec fn start_rename_spec(v: PanelView, projects: Seq<ProjectInfo>, sessions: Seq<SessionInfo>) -> PanelView {
    match target_spec(v.selected, projects, sessions) {
        None => close_menu_spec(v),
        Some(Target::Project(p)) => PanelView {
            menu_open: true,
            action_cursor: 0,
            mode: ModeView::RenameProject { project_id: p.id, name: p.display_name@ },
            ..v
        },
        Some(Target::Session(s)) => if s.archived {
            v
        } else {
            PanelView {
                menu_open: true,
                action_cursor: 0,
                mode: ModeView::RenameSession { session_id: s.id, title: s.title@ },
                ..v
            }
        },
    }
}

/// The state and commands after activating `action` on `t`.
pub open spec fn activate_spec(v: PanelView, action: SessionAction, t: Target) -> (PanelView, Seq<Command>) {
    match t {
        Target::Project(p) => match action {
            SessionAction::Rename => (
                PanelView {
                    mode: ModeView::RenameProject { project_id: p.id, name: p.display_name@ },
                    ..v
                },
                Seq::empty(),
            ),
            SessionAction::RemoveProject => (v, seq![Command::RemoveProject { project_id: p.id }]),
            SessionAction::MoveProjectUp => (
                close_menu_spec(v),
                seq![Command::MoveProject { project_id: p.id, direction: -1i32 }],
            ),
            SessionAction::MoveProjectDown => (
                close_menu_spec(v),
                seq![Command::MoveProject { project_id: p.id, direction: 1i32 }],
            ),
            SessionAction::ToggleExpanded => (
                close_menu_spec(v),
                seq![Command::SetProjectExpanded { project_id: p.id, expanded: !p.expanded }],
            ),
            SessionAction::NewDraft => (
                close_menu_spec(v),
                seq![Command::CreateProjectDraftSession { project_id: p.id }],
            ),
            SessionAction::NewWorktree => (
                PanelView { mode: ModeView::Worktree { project_id: p.id, branch: Seq::empty() }, ..v },
                Seq::empty(),
            ),
            SessionAction::GitStatus => (
                close_menu_spec(v),
                seq![Command::RefreshProjectGitStatus { project_id: p.id }],
            ),
            SessionAction::InitGit => (
                close_menu_spec(v),
                seq![Command::InitProjectGit { project_id: p.id }],
            ),
            SessionAction::Instructions => (
                close_menu_spec(v),
                seq![Command::ShowProjectInstructions { project_id: p.id }],
            ),
            _ => (v, Seq::empty()),
        },
        Target::Session(s) => match action {
            SessionAction::Rename => (
                if !s.archived {
                    PanelView {
                        mode: ModeView::RenameSession { session_id: s.id, title: s.title@ },
                        ..v
                    }
                } else {
                    v
                },
                Seq::empty(),
            ),
            SessionAction::Archive => (v, seq![Command::ArchiveSession { session_id: s.id }]),
            SessionAction::Restore => (
                close_menu_spec(v),
                seq![Command::RestoreSession { session_id: s.id }],
            ),
            SessionAction::Delete => (v, seq![Command::DeleteSession { session_id: s.id }]),
            SessionAction::NewDraft => (
                close_menu_spec(v),
                match s.project_id {
                    Some(pid) => seq![Command::CreateProjectDraftSession { project_id: pid }],
                    None => Seq::empty(),
                },
            ),
            SessionAction::NewWorktree => (
                match s.project_id {
                    Some(pid) => PanelView {
                        mode: ModeView::Worktree { project_id: pid, branch: Seq::empty() },
                        ..v
                    },
                    None => v,
                },
                Seq::empty(),
            ),
            _ => (v, Seq::empty()),
        },
    }
}

/// Activates `action` when a target is highlighted; closes the overlay when
/// none is.
pub open spec fn activate_or_close(v: PanelView, action: SessionAction, t: Option<Target>) -> (PanelView, Seq<Command>) {
    match t {
        None => (close_menu_spec(v), Seq::empty()),
        Some(t) => activate_spec(v, action, t),
    }
}

/// State and commands after a key in the action menu.
pub open spec fn menu_key_spec(v: PanelView, code: KeyCode, projects: Seq<ProjectInfo>, sessions: Seq<SessionInfo>) -> (PanelView, Seq<Command>) {
    let t = target_spec(v.selected, projects, sessions);
    let none: Seq<Command> = Seq::empty();
    match code {
        KeyCode::Esc => (close_menu_spec(v), none),
        KeyCode::Down => (move_action_down_spec(v, projects, sessions), none),
        KeyCode::Up => (PanelView { action_cursor: sat_dec(v.action_cursor), ..v }, none),
        KeyCode::Enter => match t {
            None => (close_menu_spec(v), none),
            Some(tt) => if v.action_cursor < actions_for(tt).len() {
                activate_spec(v, actions_for(tt)[v.action_cursor as int], tt)
            } else {
                (v, none)
            },
        },
        KeyCode::Char(c) => if c == 'x' {
            (open_menu_spec(v, projects, sessions), none)
        } else if c == 'j' {
            (move_action_down_spec(v, projects, sessions), none)
        } else if c == 'k' {
            (PanelView { action_cursor: sat_dec(v.action_cursor), ..v }, none)
        } else if c == 'r' || c == 'R' {
            match t {
                Some(Target::Session(s)) => if s.archived {
                    activate_spec(v, SessionAction::Restore, Target::Session(s))
                } else {
                    activate_spec(v, SessionAction::Rename, Target::Session(s))
                },
                _ => activate_or_close(v, SessionAction::Rename, t),
            }
        } else if c == 'a' || c == 'A' {
            match t {
                None => (close_menu_spec(v), none),
                Some(Target::Session(s)) => if !s.archived {
                    activate_spec(v, SessionAction::Archive, Target::Session(s))
                } else {
                    (v, none)
                },
                _ => (v, none),
            }
        } else if c == 'd' || c == 'D' {
            match t {
                None => (close_menu_spec(v), none),
                Some(Target::Project(p)) => activate_spec(v, SessionAction::RemoveProject, Target::Project(p)),
                Some(Target::Session(s)) => if s.archived {
                    activate_spec(v, SessionAction::Delete, Target::Session(s))
                } else {
                    (v, none)
                },
            }
        } else if c == 'e' || c == 'E' {
            match t {
                Some(Target::Project(p)) => activate_spec(v, SessionAction::ToggleExpanded, Target::Project(p)),
                _ => (v, none),
            }
        } else if c == 'n' || c == 'N' || c == 'w' || c == 'W' {
            let action = if c == 'n' || c == 'N' { SessionAction::NewDraft } else { SessionAction::NewWorktree };
            match t {
                None => (close_menu_spec(v), none),
                Some(Target::Project(p)) => activate_spec(v, action, Target::Project(p)),
                Some(Target::Session(s)) => if s.project_id is Some && !s.archived {
                    activate_spec(v, action, Target::Session(s))
                } else {
                    (v, none)
                },
            }
        } else if c == 'g' || c == 'G' || c == 'i' || c == 'I' {
            let action = if c == 'g' || c == 'G' {
                SessionAction::GitStatus
            } else if c == 'i' {
                SessionAction::InitGit
            } else {
                SessionAction::Instructions
            };
            match t {
                Some(Target::Project(p)) => activate_spec(v, action, Target::Project(p)),
                _ => (v, none),
            }
        } else {
            (v, none)
        },
        _ => (v, none),
    }
}

/// `x - 1`, stopping at zero.
pub open spec fn sat_dec(x: usize) -> usize {
    if x > 0 { (x - 1) as usize } else { 0 }
}

/// The action cursor one step down, stopping at the last action.
pub open spec fn move_action_down_spec(v: PanelView, projects: Seq<ProjectInfo>, sessions: Seq<SessionInfo>) -> PanelView {
    let len = available_spec(v, projects, sessions).len();
    PanelView {
        action_cursor: if len == 0 {
            0
        } else if v.action_cursor + 1 < len {
            (v.action_cursor + 1) as usize
        } else {
            (len - 1) as usize
        },
        ..v
    }
}

/// The archive cursor one step down, stopping at the last archived session.
pub open spec fn move_archive_down_spec(v: PanelView, sessions: Seq<SessionInfo>) -> PanelView {
    let len = archived_spec(sessions).len();
    PanelView {
        archive_cursor: if len == 0 {
            0
        } else if v.archive_cursor + 1 < len {
            (v.archive_cursor + 1) as usize
        } else {
            (len - 1) as usize
        },
        ..v
    }
}

/// The archived session under the archive cursor.
pub open spec fn archive_pick(v: PanelView, sessions: Seq<SessionInfo>) -> Option<SessionInfo> {
    let a = archived_spec(sessions);
    if v.archive_cursor < a.len() {
        Some(a[v.archive_cursor as int])
    } else {
        None
    }
}

/// State and commands after a key in the archive manager.
pub open spec fn archive_key_spec(v: PanelView, code: KeyCode, sessions: Seq<SessionInfo>) -> (PanelView, Seq<Command>) {
    let none: Seq<Command> = Seq::empty();
    let restore = match archive_pick(v, sessions) {
        Some(s) => seq![Command::RestoreSession { session_id: s.id }],
        None => none,
    };
    let delete = match archive_pick(v, sessions) {
        Some(s) => seq![Command::DeleteSession { session_id: s.id }],
        None => none,
    };
    match code {
        KeyCode::Esc => (close_archive_spec(v), none),
        KeyCode::Down => (move_archive_down_spec(v, sessions), none),
        KeyCode::Up => (PanelView { archive_cursor: sat_dec(v.archive_cursor), ..v }, none),
        KeyCode::Enter => (close_archive_spec(v), restore),
        KeyCode::Char(c) => if c == 'x' {
            (close_archive_spec(v), none)
        } else if c == 'j' {
            (move_archive_down_spec(v, sessions), none)
        } else if c == 'k' {
            (PanelView { archive_cursor: sat_dec(v.archive_cursor), ..v }, none)
        } else if c == 'r' || c == 'R' {
            (close_archive_spec(v), restore)
        } else if c == 'd' || c == 'D' {
            (v, delete)
        } else {
            (v, none)
        },
        _ => (v, none),
    }
}

/// The mode after a key typed into the inline rename input.
pub open spec fn rename_edit_spec(m: ModeView, code: KeyCode) -> ModeView {
    match code {
        KeyCode::Backspace => match m {
            ModeView::RenameSession { session_id, title } => ModeView::RenameSession {
                session_id,
                title: pop_seq(title),
            },
            ModeView::RenameProject { project_id, name } => ModeView::RenameProject {
                project_id,
                name: pop_seq(name),
            },
            _ => m,
        },
        KeyCode::Char(c) => match m {
            ModeView::RenameSession { session_id, title } => ModeView::RenameSession {
                session_id,
                title: title.push(c),
            },
            ModeView::RenameProject { project_id, name } => ModeView::RenameProject {
                project_id,
                name: name.push(c),
            },
            _ => m,
        },
        _ => m,
    }
}

/// The mode after a key typed into the worktree branch input.
pub open spec fn worktree_edit_spec(m: ModeView, code: KeyCode) -> ModeView {
    match (code, m) {
        (KeyCode::Backspace, ModeView::Worktree { project_id, branch }) => ModeView::Worktree {
            project_id,
            branch: pop_seq(branch),
        },
        (KeyCode::Char(c), ModeView::Worktree { project_id, branch }) => ModeView::Worktree {
            project_id,
            branch: branch.push(c),
        },
        _ => m,
    }
}

/// The command submitted by Enter in the rename input: the trimmed name,
/// unless it is blank.
pub open spec fn rename_submit_ok(m: ModeView, cmds: Seq<Command>) -> bool {
    match m {
        ModeView::RenameSession { session_id, title } => if is_blank(title) {
            cmds.len() == 0
        } else {
            cmds.len() == 1 && (cmds[0] matches Command::RenameSession { session_id: sid, title: t }
                && sid == session_id && t@ == trim_seq(title))
        },
        ModeView::RenameProject { project_id, name } => if is_blank(name) {
            cmds.len() == 0
        } else {
            cmds.len() == 1 && (cmds[0] matches Command::RenameProject { project_id: pid, display_name: t }
                && pid == project_id && t@ == trim_seq(name))
        },
        _ => cmds.len() == 0,
    }
}

/// The command submitted by Enter in the worktree input: the trimmed branch
/// name, unless it is blank.
pub open spec fn worktree_submit_ok(m: ModeView, cmds: Seq<Command>) -> bool {
    match m {
        ModeView::Worktree { project_id, branch } => if is_blank(branch) {
            cmds.len() == 0
        } else {
            cmds.len() == 1 && (cmds[0] matches Command::CreateProjectWorktreeSession {
                project_id: pid,
                branch_name: b,
            } && pid == project_id && b@ == trim_seq(branch))
        },
        _ => cmds.len() == 0,
    }
}

/// The key opens the action menu from the plain list.
pub open spec fn is_menu_key(code: KeyCode) -> bool {
    code == KeyCode::Char('x')
}

/// What a key does in the rename input: Esc closes the menu, Enter closes
/// it and submits the trimmed name, other keys edit the name.
pub open spec fn rename_key_ok(o: PanelView, n: PanelView, code: KeyCode, cmds: Seq<Command>) -> bool {
    &&& code == KeyCode::Esc ==> n == close_menu_spec(o) && cmds.len() == 0
    &&& code == KeyCode::Enter ==> n == close_menu_spec(o) && rename_submit_ok(o.mode, cmds)
    &&& code != KeyCode::Esc && code != KeyCode::Enter ==> cmds.len() == 0 && n == (PanelView {
        mode: rename_edit_spec(o.mode, code),
        ..o
    })
}

/// What a key does in the branch input: Esc closes the menu, Enter closes
/// it and asks for the worktree session, other keys edit the branch name.
pub open spec fn worktree_key_ok(o: PanelView, n: PanelView, code: KeyCode, cmds: Seq<Command>) -> bool {
    &&& code == KeyCode::Esc ==> n == close_menu_spec(o) && cmds.len() == 0
    &&& code == KeyCode::Enter ==> n == close_menu_spec(o) && worktree_submit_ok(o.mode, cmds)
    &&& code != KeyCode::Esc && code != KeyCode::Enter ==> cmds.len() == 0 && n == (PanelView {
        mode: worktree_edit_spec(o.mode, code),
        ..o
    })
}

impl SessionsPanel {
    /// A panel with the first row highlighted and every overlay closed.
    pub fn new() -> (p: SessionsPanel)
        ensures
            p@ == (PanelView {
                focused: false,
                selected: Some(0),
                menu_open: false,
                archive_open: false,
                search_query: None,
                action_cursor: 0,
                archive_cursor: 0,
                mode: ModeView::Menu,
            }),
    {
        let mut state = ListSelection::new();
        state.select(Some(0));
        SessionsPanel {
            focused: false,
            state,
            context_menu_open: false,
            archive_manager_open: false,
            search_query: None,
            action_cursor: 0,
            archive_cursor: 0,
            action_mode: SessionActionMode::Menu,
        }
    }

    /// Whether the action overlay or the archive manager is open.
    pub fn is_overlay_open(&self) -> (b: bool)
        ensures
            b == (self.context_menu_open || self.archive_manager_open),
    {
        self.context_menu_open || self.archive_manager_open
    }

    /// The session at the highlighted position of `sessions` (a flat list).
    pub fn selected_session<'a>(&self, sessions: &'a [SessionInfo]) -> (r: Option<&'a SessionInfo>)
        ensures
            r == (match self.state.index {
                Some(i) => if i < sessions.len() { Some(&sessions@[i as int]) } else { None },
                None => None,
            }),
    {
        match self.state.selected() {
            Some(i) => if i < sessions.len() { Some(&sessions[i]) } else { None },
            None => None,
        }
    }

    /// The identifier of [`Self::selected_session`].
    pub fn selected_session_id(&self, sessions: &[SessionInfo]) -> (r: Option<SessionId>)
        ensures
            r == (match self.state.index {
                Some(i) => if i < sessions.len() { Some(sessions@[i as int].id) } else { None },
                None => None,
            }),
    {
        match self.selected_session(sessions) {
            Some(s) => Some(s.id.clone()),
            None => None,
        }
    }

    /// The highlighted row of the list built from `projects` and `sessions`.
    pub fn selected_row(&self, projects: &[ProjectInfo], sessions: &[SessionInfo]) -> (r: Option<
        SessionListRow,
    >)
        ensures
            r == (match self.state.index {
                Some(i) => if i < list_rows(projects@, sessions@).len() {
                    Some(list_rows(projects@, sessions@)[i as int])
                } else {
                    None
                },
                None => None,
            }),
    {
        match self.state.selected() {
            Some(i) => {
                let rows = session_list_rows(projects, sessions);
                if i < rows.len() {
                    Some(rows[i].clone())
                } else {
                    None
                }
            },
            None => None,
        }
    }

    /// The session on the highlighted row, if that row is a session.
    pub fn selected_session_in<'a>(&self, projects: &[ProjectInfo], sessions: &'a [SessionInfo]) -> (r: Option<&'a SessionInfo>)
        ensures
            r is Some <==> (target_spec(self.state.index, projects@, sessions@) matches Some(t) && t is Session),
            r matches Some(s) ==> target_spec(self.state.index, projects@, sessions@) == Some(
                Target::Session(*s),
            ),
    {
        match self.selected_target(projects, sessions) {
            Some(SelectedRow::Session(i)) => Some(&sessions[i]),
            _ => None,
        }
    }

    /// Where the highlighted row's project or session sits in the inputs.
    pub fn selected_target(&self, projects: &[ProjectInfo], sessions: &[SessionInfo]) -> (r: Option<SelectedRow>)
        ensures
            r is None <==> target_spec(self.state.index, projects@, sessions@) is None,
            r matches Some(row) ==> row_in_range(row, projects@, sessions@) && target_spec(
                self.state.index,
                projects@,
                sessions@,
            ) == Some(target_of(row, projects@, sessions@)),
    {
        match self.selected_row(projects, sessions) {
            None => None,
            Some(SessionListRow::Project(pid)) => match find_project_index(projects, &pid) {
                Some(i) => Some(SelectedRow::Project(i)),
                None => None,
            },
            Some(SessionListRow::Session(sid)) => match find_session_index(sessions, &sid) {
                Some(i) => Some(SelectedRow::Session(i)),
                None => None,
            },
        }
    }

    /// The sessions that are not archived, narrowed by the search query
    /// (matched case-insensitively against title and model profile).
    pub fn filtered_sessions<'a>(&self, sessions: &'a [SessionInfo]) -> (r: Vec<&'a SessionInfo>)
        ensures
            r@.len() <= sessions@.len(),
            forall|k: int| 0 <= k < r@.len() ==> !(#[trigger] r@[k]).archived,
            forall|k: int| #![trigger r@[k]] 0 <= k < r@.len() ==> (self.search_query matches Some(q)
                ==> query_matches(*r@[k], q@)),
            forall|j: int| #![trigger sessions@[j]] 0 <= j < sessions@.len() && !sessions@[j].archived
                && (self.search_query matches Some(q) ==> query_matches(sessions@[j], q@))
                ==> r@.contains(&sessions@[j]),
    {
        let q = match &self.search_query {
            Some(q) => if q.as_str().unicode_len() == 0 { None } else { Some(crate::text::to_lowercase(q.as_str())) },
            None => None,
        };
        let mut r: Vec<&'a SessionInfo> = Vec::new();
        let mut i: usize = 0;
        while i < sessions.len()
            invariant
                i <= sessions.len(),
                r@.len() <= i,
                q is Some <==> (self.search_query matches Some(sq) && sq@.len() > 0),
                q matches Some(qq) ==> qq@ == crate::text::lowercase(self.search_query.unwrap()@),
                forall|k: int| 0 <= k < r@.len() ==> !(#[trigger] r@[k]).archived,
                forall|k: int| #![trigger r@[k]] 0 <= k < r@.len() ==> (self.search_query matches Some(qq)
                    ==> query_matches(*r@[k], qq@)),
                forall|j: int| #![trigger sessions@[j]] 0 <= j < i && !sessions@[j].archived && (
                self.search_query matches Some(qq) ==> query_matches(sessions@[j], qq@))
                    ==> r@.contains(&sessions@[j]),
            decreases sessions.len() - i,
        {
            let s = &sessions[i];
            if !s.archived {
                let keep = match &q {
                    None => true,
                    Some(qq) => {
                        let t = crate::text::to_lowercase(s.title.as_str());
                        let m = crate::text::to_lowercase(s.model_profile.as_str());
                        crate::text::contains_str(t.as_str(), qq.as_str())
                            || crate::text::contains_str(m.as_str(), qq.as_str())
                    },
                };
                if keep {
                    let ghost before = r@;
                    r.push(s);
                    proof {
                        assert(r@[before.len() as int] == &sessions@[i as int]);
                        assert forall|j: int| #![trigger sessions@[j]] 0 <= j < i && !sessions@[j].archived && (
                        self.search_query matches Some(qq) ==> query_matches(sessions@[j], qq@))
                            implies r@.contains(&sessions@[j]) by {
                            let k = choose|k: int| 0 <= k < before.len() && before[k] == &sessions@[j];
                            assert(r@[k] == before[k]);
                        }
                    }
                }
            }
            i = i + 1;
        }
        r
    }

    /// Moves the highlight one row up, wrapping to the bottom.
    pub fn scroll_up(&mut self, len: usize)
        ensures
            final(self)@ == (PanelView {
                selected: crate::selection::wrap_up_spec(len as nat, old(self).state.index),
                ..old(self)@
            }),
    {
        let next = crate::selection::wrap_up(len, self.state.selected());
        self.state.select(next);
    }

    /// Moves the highlight one row down, wrapping to the top.
    pub fn scroll_down(&mut self, len: usize)
        ensures
            final(self)@ == (PanelView {
                selected: crate::selection::wrap_down_spec(len as nat, old(self).state.index),
                ..old(self)@
            }),
    {
        let next = crate::selection::wrap_down(len, self.state.selected());
        self.state.select(next);
    }

    /// Opens the action menu for the highlighted row; returns whether a row
    /// was there to act on.
    pub fn open_action_menu(&mut self, projects: &[ProjectInfo], sessions: &[SessionInfo]) -> (opened: bool)
        ensures
            opened == target_spec(old(self).state.index, projects@, sessions@) is Some,
            final(self)@ == open_menu_spec(old(self)@, projects@, sessions@),
    {
        if self.selected_target(projects, sessions).is_none() {
            self.close_action_menu();
            return false;
        }
        self.close_archive_manager();
        self.context_menu_open = true;
        self.action_cursor = 0;
        self.action_mode = SessionActionMode::Menu;
        true
    }

    /// Opens the archive manager, keeping the cursor within the archived
    /// sessions.
    pub fn open_archive_manager(&mut self, sessions: &[SessionInfo]) -> (opened: bool)
        ensures
            opened,
            final(self)@ == open_archive_spec(old(self)@, sessions@),
    {
        self.close_action_menu();
        self.archive_manager_open = true;
        let total = archive_stats(sessions).total;
        let last = if total == 0 { 0 } else { total - 1 };
        self.archive_cursor = if self.archive_cursor < last { self.archive_cursor } else { last };
        true
    }

    /// Closes the archive manager.
    pub fn close_archive_manager(&mut self)
        ensures
            final(self)@ == close_archive_spec(old(self)@),
    {
        self.archive_manager_open = false;
        self.archive_cursor = 0;
    }

    /// Closes the action overlay.
    pub fn close_action_menu(&mut self)
        ensures
            final(self)@ == close_menu_spec(old(self)@),
    {
        self.context_menu_open = false;
        self.action_cursor = 0;
        self.action_mode = SessionActionMode::Menu;
    }

    /// Opens the inline rename input for the highlighted project or
    /// (unarchived) session; returns whether it opened.
    pub fn start_rename_for_selected(&mut self, projects: &[ProjectInfo], sessions: &[SessionInfo]) -> (started: bool)
        ensures
            final(self)@ == start_rename_spec(old(self)@, projects@, sessions@),
            started == match target_spec(old(self).state.index, projects@, sessions@) {
                None => false,
                Some(Target::Project(_)) => true,
                Some(Target::Session(s)) => !s.archived,
            },
    {
        match self.selected_target(projects, sessions) {
            None => {
                self.close_action_menu();
                false
            },
            Some(SelectedRow::Project(i)) => {
                self.context_menu_open = true;
                self.action_cursor = 0;
                self.action_mode = SessionActionMode::RenameProject {
                    project_id: projects[i].id.clone(),
                    display_name: projects[i].display_name.clone(),
                };
                true
            },
            Some(SelectedRow::Session(i)) => {
                if sessions[i].archived {
                    return false;
                }
                self.context_menu_open = true;
                self.action_cursor = 0;
                self.action_mode = SessionActionMode::RenameSession {
                    session_id: sessions[i].id.clone(),
                    title: sessions[i].title.clone(),
                };
                true
            },
        }
    }

    /// Actions offered for the highlighted row.
    pub fn available_actions(&self, projects: &[ProjectInfo], sessions: &[SessionInfo]) -> (r: Vec<SessionAction>)
        ensures
            r@ == available_spec(self@, projects@, sessions@),
    {
        match self.selected_target(projects, sessions) {
            None => Vec::new(),
            Some(SelectedRow::Project(_)) => vec![
                SessionAction::Rename,
                SessionAction::RemoveProject,
                SessionAction::MoveProjectUp,
                SessionAction::MoveProjectDown,
                SessionAction::ToggleExpanded,
                SessionAction::NewDraft,
                SessionAction::NewWorktree,
                SessionAction::GitStatus,
                SessionAction::InitGit,
                SessionAction::Instructions,
            ],
            Some(SelectedRow::Session(i)) => if sessions[i].archived {
                vec![SessionAction::Restore, SessionAction::Delete]
            } else if sessions[i].project_id.is_some() {
                vec![
                    SessionAction::Rename,
                    SessionAction::Archive,
                    SessionAction::NewDraft,
                    SessionAction::NewWorktree,
                ]
            } else {
                vec![SessionAction::Rename, SessionAction::Archive]
            },
        }
    }

    /// The action under the action cursor.
    pub fn current_action(&self, projects: &[ProjectInfo], sessions: &[SessionInfo]) -> (r: Option<SessionAction>)
        ensures
            r == (if self.action_cursor < available_spec(self@, projects@, sessions@).len() {
                Some(available_spec(self@, projects@, sessions@)[self.action_cursor as int])
            } else {
                None
            }),
    {
        let actions = self.available_actions(projects, sessions);
        if self.action_cursor < actions.len() {
            Some(actions[self.action_cursor])
        } else {
            None
        }
    }

    fn move_action_down(&mut self, projects: &[ProjectInfo], sessions: &[SessionInfo])
        ensures
            final(self)@ == move_action_down_spec(old(self)@, projects@, sessions@),
    {
        let len = self.available_actions(projects, sessions).len();
        if len == 0 {
            self.action_cursor = 0;
            return;
        }
        self.action_cursor = if self.action_cursor < len - 1 { self.action_cursor + 1 } else { len - 1 };
    }

    fn move_action_up(&mut self)
        ensures
            final(self)@ == (PanelView { action_cursor: sat_dec(old(self).action_cursor), ..old(self)@ }),
    {
        self.action_cursor = if self.action_cursor > 0 { self.action_cursor - 1 } else { 0 };
    }

    fn move_archive_down(&mut self, sessions: &[SessionInfo])
        ensures
            final(self)@ == move_archive_down_spec(old(self)@, sessions@),
    {
        let len = archive_stats(sessions).total;
        if len == 0 {
            self.archive_cursor = 0;
            return;
        }
        self.archive_cursor = if self.archive_cursor < len - 1 { self.archive_cursor + 1 } else { len - 1 };
    }

    fn move_archive_up(&mut self)
        ensures
            final(self)@ == (PanelView { archive_cursor: sat_dec(old(self).archive_cursor), ..old(self)@ }),
    {
        self.archive_cursor = if self.archive_cursor > 0 { self.archive_cursor - 1 } else { 0 };
    }

    /// The archived session under the archive cursor, copied.
    pub fn selected_archived_session(&self, sessions: &[SessionInfo]) -> (r: Option<SessionInfo>)
        ensures
            r == archive_pick(self@, sessions@),
    {
        let archived = archived_sessions(sessions);
        if self.archive_cursor < archived.len() {
            Some(archived[self.archive_cursor].clone())
        } else {
            None
        }
    }

    /// Carries out `action` on the given row.
    pub fn activate_action(&mut self, action: SessionAction, target: SelectedRow, projects: &[ProjectInfo], sessions: &[SessionInfo]) -> (cmds: Vec<Command>)
        requires
            row_in_range(target, projects@, sessions@),
        ensures
            (final(self)@, cmds@) == activate_spec(old(self)@, action, target_of(target, projects@, sessions@)),
    {
        match target {
            SelectedRow::Project(i) => {
                let p = &projects[i];
                match action {
                    SessionAction::Rename => {
                        self.action_mode = SessionActionMode::RenameProject {
                            project_id: p.id.clone(),
                            display_name: p.display_name.clone(),
                        };
                        Vec::new()
                    },
                    SessionAction::RemoveProject => vec![Command::RemoveProject { project_id: p.id.clone() }],
                    SessionAction::MoveProjectUp => {
                        self.close_action_menu();
                        vec![Command::MoveProject { project_id: p.id.clone(), direction: -1 }]
                    },
                    SessionAction::MoveProjectDown => {
                        self.close_action_menu();
                        vec![Command::MoveProject { project_id: p.id.clone(), direction: 1 }]
                    },
                    SessionAction::ToggleExpanded => {
                        self.close_action_menu();
                        vec![Command::SetProjectExpanded { project_id: p.id.clone(), expanded: !p.expanded }]
                    },
                    SessionAction::NewDraft => {
                        self.close_action_menu();
                        vec![Command::CreateProjectDraftSession { project_id: p.id.clone() }]
                    },
                    SessionAction::NewWorktree => {
                        self.action_mode = SessionActionMode::Worktree {
                            project_id: p.id.clone(),
                            branch_name: String::new(),
                        };
                        Vec::new()
                    },
                    SessionAction::GitStatus => {
                        self.close_action_menu();
                        vec![Command::RefreshProjectGitStatus { project_id: p.id.clone() }]
                    },
                    SessionAction::InitGit => {
                        self.close_action_menu();
                        vec![Command::InitProjectGit { project_id: p.id.clone() }]
                    },
                    SessionAction::Instructions => {
                        self.close_action_menu();
                        vec![Command::ShowProjectInstructions { project_id: p.id.clone() }]
                    },
                    _ => Vec::new(),
                }
            },
            SelectedRow::Session(i) => {
                let s = &sessions[i];
                match action {
                    SessionAction::Rename => {
                        if !s.archived {
                            self.action_mode = SessionActionMode::RenameSession {
                                session_id: s.id.clone(),
                                title: s.title.clone(),
                            };
                        }
                        Vec::new()
                    },
                    SessionAction::Archive => vec![Command::ArchiveSession { session_id: s.id.clone() }],
                    SessionAction::Restore => {
                        self.close_action_menu();
                        vec![Command::RestoreSession { session_id: s.id.clone() }]
                    },
                    SessionAction::Delete => vec![Command::DeleteSession { session_id: s.id.clone() }],
                    SessionAction::NewDraft => {
                        self.close_action_menu();
                        match &s.project_id {
                            Some(pid) => vec![Command::CreateProjectDraftSession { project_id: pid.clone() }],
                            None => Vec::new(),
                        }
                    },
                    SessionAction::NewWorktree => {
                        match &s.project_id {
                            Some(pid) => {
                                self.action_mode = SessionActionMode::Worktree {
                                    project_id: pid.clone(),
                                    branch_name: String::new(),
                                };
                            },
                            None => {},
                        }
                        Vec::new()
                    },
                    _ => Vec::new(),
                }
            },
        }
    }

    /// Handles a key in the archive manager.
    pub fn handle_archive_manager_key(&mut self, sessions: &[SessionInfo], code: KeyCode) -> (cmds: Vec<Command>)
        ensures
            (final(self)@, cmds@) == archive_key_spec(old(self)@, code, sessions@),
    {
        match code {
            KeyCode::Esc | KeyCode::Char('x') => {
                self.close_archive_manager();
                Vec::new()
            },
            KeyCode::Char('j') | KeyCode::Down => {
                self.move_archive_down(sessions);
                Vec::new()
            },
            KeyCode::Char('k') | KeyCode::Up => {
                self.move_archive_up();
                Vec::new()
            },
            KeyCode::Enter | KeyCode::Char('r') | KeyCode::Char('R') => {
                let picked = self.selected_archived_session(sessions);
                self.close_archive_manager();
                match picked {
                    Some(s) => vec![Command::RestoreSession { session_id: s.id }],
                    None => Vec::new(),
                }
            },
            KeyCode::Char('d') | KeyCode::Char('D') => {
                match self.selected_archived_session(sessions) {
                    Some(s) => vec![Command::DeleteSession { session_id: s.id }],
                    None => Vec::new(),
                }
            },
            _ => Vec::new(),
        }
    }

    /// Activates `action` on the highlighted row, or closes the overlay when
    /// nothing is highlighted.
    fn activate_selected(&mut self, action: SessionAction, projects: &[ProjectInfo], sessions: &[SessionInfo]) -> (cmds: Vec<Command>)
        ensures
            (final(self)@, cmds@) == activate_or_close(old(self)@, action, target_spec(old(self).state.index, projects@, sessions@)),
    {
        match self.selected_target(projects, sessions) {
            None => {
                self.close_action_menu();
                Vec::new()
            },
            Some(t) => self.activate_action(action, t, projects, sessions),
        }
    }

    /// Handles a key in the action menu.
    pub fn handle_menu_key(&mut self, projects: &[ProjectInfo], sessions: &[SessionInfo], code: KeyCode) -> (cmds: Vec<Command>)
        ensures
            (final(self)@, cmds@) == menu_key_spec(old(self)@, code, projects@, sessions@),
    {
        let target = self.selected_target(projects, sessions);
        match code {
            KeyCode::Esc => {
                self.close_action_menu();
                Vec::new()
            },
            KeyCode::Char('x') => {
                self.open_action_menu(projects, sessions);
                Vec::new()
            },
            KeyCode::Char('j') | KeyCode::Down => {
                self.move_action_down(projects, sessions);
                Vec::new()
            },
            KeyCode::Char('k') | KeyCode::Up => {
                self.move_action_up();
                Vec::new()
            },
            KeyCode::Enter => {
                match target {
                    None => {
                        self.close_action_menu();
                        Vec::new()
                    },
                    Some(t) => match self.current_action(projects, sessions) {
                        None => Vec::new(),
                        Some(action) => self.activate_action(action, t, projects, sessions),
                    },
                }
            },
            KeyCode::Char('r') | KeyCode::Char('R') => {
                let action = match target {
                    Some(SelectedRow::Session(i)) => if sessions[i].archived {
                        SessionAction::Restore
                    } else {
                        SessionAction::Rename
                    },
                    _ => SessionAction::Rename,
                };
                self.activate_selected(action, projects, sessions)
            },
            KeyCode::Char('a') | KeyCode::Char('A') => match target {
                None => {
                    self.close_action_menu();
                    Vec::new()
                },
                Some(SelectedRow::Session(i)) => if !sessions[i].archived {
                    self.activate_action(SessionAction::Archive, SelectedRow::Session(i), projects, sessions)
                } else {
                    Vec::new()
                },
                _ => Vec::new(),
            },
            KeyCode::Char('d') | KeyCode::Char('D') => match target {
                None => {
                    self.close_action_menu();
                    Vec::new()
                },
                Some(SelectedRow::Project(i)) => self.activate_action(SessionAction::RemoveProject, SelectedRow::Project(i), projects, sessions),
                Some(SelectedRow::Session(i)) => if sessions[i].archived {
                    self.activate_action(SessionAction::Delete, SelectedRow::Session(i), projects, sessions)
                } else {
                    Vec::new()
                },
            },
            KeyCode::Char('e') | KeyCode::Char('E') => match target {
                Some(SelectedRow::Project(i)) => self.activate_action(SessionAction::ToggleExpanded, SelectedRow::Project(i), projects, sessions),
                _ => Vec::new(),
            },
            KeyCode::Char('n') | KeyCode::Char('N') | KeyCode::Char('w') | KeyCode::Char('W') => {
                let action = match code {
                    KeyCode::Char('n') | KeyCode::Char('N') => SessionAction::NewDraft,
                    _ => SessionAction::NewWorktree,
                };
                match target {
                    None => {
                        self.close_action_menu();
                        Vec::new()
                    },
                    Some(SelectedRow::Project(i)) => self.activate_action(action, SelectedRow::Project(i), projects, sessions),
                    Some(SelectedRow::Session(i)) => if sessions[i].project_id.is_some() && !sessions[i].archived {
                        self.activate_action(action, SelectedRow::Session(i), projects, sessions)
                    } else {
                        Vec::new()
                    },
                }
            },
            KeyCode::Char('g') | KeyCode::Char('G') | KeyCode::Char('i') | KeyCode::Char('I') => {
                let action = match code {
                    KeyCode::Char('g') | KeyCode::Char('G') => SessionAction::GitStatus,
                    KeyCode::Char('i') => SessionAction::InitGit,
                    _ => SessionAction::Instructions,
                };
                match target {
                    Some(SelectedRow::Project(i)) => self.activate_action(action, SelectedRow::Project(i), projects, sessions),
                    _ => Vec::new(),
                }
            },
            _ => Vec::new(),
        }
    }

    /// Handles a key in the inline rename input.
    pub fn handle_rename_key(&mut self, code: KeyCode) -> (cmds: Vec<Command>)
        ensures
            rename_key_ok(old(self)@, final(self)@, code, cmds@),
    {
        match code {
            KeyCode::Esc => {
                self.close_action_menu();
                Vec::new()
            },
            KeyCode::Enter => {
                let cmds = match &self.action_mode {
                    SessionActionMode::RenameSession { session_id, title } => {
                        let t = trim(title.as_str());
                        if t.as_str().unicode_len() == 0 {
                            Vec::new()
                        } else {
                            vec![Command::RenameSession { session_id: session_id.clone(), title: t }]
                        }
                    },
                    SessionActionMode::RenameProject { project_id, display_name } => {
                        let t = trim(display_name.as_str());
                        if t.as_str().unicode_len() == 0 {
                            Vec::new()
                        } else {
                            vec![Command::RenameProject { project_id: project_id.clone(), display_name: t }]
                        }
                    },
                    _ => Vec::new(),
                };
                self.close_action_menu();
                cmds
            },
            KeyCode::Backspace => {
                match &mut self.action_mode {
                    SessionActionMode::RenameSession { title, .. } => {
                        pop_char(title);
                    },
                    SessionActionMode::RenameProject { display_name, .. } => {
                        pop_char(display_name);
                    },
                    _ => {},
                }
                Vec::new()
            },
            KeyCode::Char(c) => {
                match &mut self.action_mode {
                    SessionActionMode::RenameSession { title, .. } => push_char(title, c),
                    SessionActionMode::RenameProject { display_name, .. } => push_char(display_name, c),
                    _ => {},
                }
                Vec::new()
            },
            _ => Vec::new(),
        }
    }

    /// Handles a key in the worktree branch input.
    pub fn handle_worktree_key(&mut self, code: KeyCode) -> (cmds: Vec<Command>)
        ensures
            worktree_key_ok(old(self)@, final(self)@, code, cmds@),
    {
        match code {
            KeyCode::Esc => {
                self.close_action_menu();
                Vec::new()
            },
            KeyCode::Enter => {
                let cmds = match &self.action_mode {
                    SessionActionMode::Worktree { project_id, branch_name } => {
                        let t = trim(branch_name.as_str());
                        if t.as_str().unicode_len() == 0 {
                            Vec::new()
                        } else {
                            vec![Command::CreateProjectWorktreeSession { project_id: project_id.clone(), branch_name: t }]
                        }
                    },
                    _ => Vec::new(),
                };
                self.close_action_menu();
                cmds
            },
            KeyCode::Backspace => {
                match &mut self.action_mode {
                    SessionActionMode::Worktree { branch_name, .. } => {
                        pop_char(branch_name);
                    },
                    _ => {},
                }
                Vec::new()
            },
            KeyCode::Char(c) => {
                match &mut self.action_mode {
                    SessionActionMode::Worktree { branch_name, .. } => push_char(branch_name, c),
                    _ => {},
                }
                Vec::new()
            },
            _ => Vec::new(),
        }
    }

    /// Handles a key: the archive manager takes it when open; with the
    /// action overlay closed only `x` does something (it opens the overlay);
    /// otherwise the overlay's current mode takes it.
    pub fn handle_event(&mut self, ctx: &EventContext, key: KeyInput) -> (out: (Vec<CrossPanelEffect>, Vec<Command>))
        ensures
            out.0@.len() == 0,
            old(self).archive_manager_open ==> (final(self)@, out.1@) == archive_key_spec(old(self)@, key.code, ctx.sessions@),
            !old(self).archive_manager_open && !old(self).context_menu_open ==> out.1@.len() == 0 && final(self)@ == if is_menu_key(key.code) {
                open_menu_spec(old(self)@, ctx.projects@, ctx.sessions@)
            } else {
                old(self)@
            },
            !old(self).archive_manager_open && old(self).context_menu_open && old(self)@.mode is Menu ==> (final(self)@, out.1@) == menu_key_spec(old(self)@, key.code, ctx.projects@, ctx.sessions@),
            !old(self).archive_manager_open && old(self).context_menu_open && (old(self)@.mode is RenameSession || old(self)@.mode is RenameProject) ==> rename_key_ok(old(self)@, final(self)@, key.code, out.1@),
            !old(self).archive_manager_open && old(self).context_menu_open && old(self)@.mode is Worktree ==> worktree_key_ok(old(self)@, final(self)@, key.code, out.1@),
    {
        if self.archive_manager_open {
            let cmds = self.handle_archive_manager_key(ctx.sessions, key.code);
            return (Vec::new(), cmds);
        }
        if !self.context_menu_open {
            if key.code == KeyCode::Char('x') {
                self.open_action_menu(ctx.projects, ctx.sessions);
            }
            return (Vec::new(), Vec::new());
        }
        let cmds = match self.action_mode {
            SessionActionMode::Menu => self.handle_menu_key(ctx.projects, ctx.sessions, key.code),
            SessionActionMode::RenameSession { .. } | SessionActionMode::RenameProject { .. } => self.handle_rename_key(key.code),
            SessionActionMode::Worktree { .. } => self.handle_worktree_key(key.code),
        };
        (Vec::new(), cmds)
    }
}

/// The session matches a search query: every session matches an empty
/// query; otherwise the query occurs in the title or the model profile,
/// compared case-insensitively.
pub open spec fn query_matches(s: SessionInfo, q: Seq<char>) -> bool {
    ||| q.len() == 0
    ||| crate::text::seq_contains(crate::text::lowercase(s.title@), crate::text::lowercase(q))
    ||| crate::text::seq_contains(crate::text::lowercase(s.model_profile@), crate::text::lowercase(q))
}

impl Default for SessionsPanel {
    /// The same as [`SessionsPanel::new`].
    fn default() -> (p: Self)
        ensures
            p@ == (PanelView {
                focused: false,
                selected: Some(0),
                menu_open: false,
                archive_open: false,
                search_query: None,
                action_cursor: 0,
                archive_cursor: 0,
                mode: ModeView::Menu,
            }),
    {
        SessionsPanel::new()
    }
}

} // verus!
