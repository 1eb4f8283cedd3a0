//! Projects, sessions, and the rows of the sessions list built from them.

use vstd::prelude::*;

use crate::ids::{ProjectId, SessionId};

verus! {

/// Run state of a session.
#[derive(Debug, PartialEq, Eq)]
pub enum SessionState {
    Active,
    Idle,
    Error(String),
    AwaitingPermission,
}

/// Whether a project session is listed or kept as a hidden draft.
#[derive(Debug, Clone, Copy, PartialEq, Eq, Structural)]
pub enum ProjectSessionVisibility {
    Visible,
    DraftHidden,
}

/// Kind of a project's git status.
#[derive(Debug, Clone, Copy, PartialEq, Eq, Structural)]
pub enum ProjectGitStatusKind {
    NotInitialized,
    Clean,
    Dirty,
    Detached,
    MissingPath,
    Error,
}

/// Git status of a project's working tree.
#[derive(Debug, PartialEq, Eq)]
pub struct ProjectGitStatus {
    pub kind: ProjectGitStatusKind,
    pub branch: Option<String>,
    pub worktree_path: String,
    pub message: Option<String>,
}

/// The instruction files found for a project.
#[derive(Debug, Clone, PartialEq, Eq)]
pub struct ProjectInstructionSummary {
    pub source_paths: Vec<String>,
}

/// A project as the sessions list shows it.
#[derive(Debug, Clone, PartialEq, Eq)]
pub struct ProjectInfo {
    pub id: ProjectId,
    pub display_name: String,
    pub root_path: String,
    pub expanded: bool,
    pub git_status: Option<ProjectGitStatus>,
    pub instruction_summary: Option<ProjectInstructionSummary>,
}

/// A session as the sessions list shows it.
#[derive(Debug, PartialEq, Eq)]
pub struct SessionInfo {
    pub id: SessionId,
    pub title: String,
    pub model_profile: String,
    pub state: SessionState,
    pub pinned: bool,
    pub archived: bool,
    pub project_id: Option<ProjectId>,
    pub worktree_path: Option<String>,
    pub branch: Option<String>,
    pub visibility: Option<ProjectSessionVisibility>,
}

/// One row of the sessions list.
#[derive(Debug, PartialEq, Eq)]
pub enum SessionListRow {
    Project(ProjectId),
    Session(SessionId),
}

/// Counts shown by the archive manager.
#[derive(Debug, Clone, Copy, PartialEq, Eq, Structural)]
pub struct ArchiveStats {
    pub total: usize,
    pub projects: usize,
}

impl Clone for SessionState {
    fn clone(&self) -> (r: Self)
        ensures
            r == *self,
    {
        match self {
            SessionState::Active => SessionState::Active,
            SessionState::Idle => SessionState::Idle,
            SessionState::Error(e) => SessionState::Error(e.clone()),
            SessionState::AwaitingPermission => SessionState::AwaitingPermission,
        }
    }
}

impl Clone for ProjectGitStatus {
    fn clone(&self) -> (r: Self)
        ensures
            r == *self,
    {
        ProjectGitStatus {
            kind: self.kind,
            branch: self.branch.clone(),
            worktree_path: self.worktree_path.clone(),
            message: self.message.clone(),
        }
    }
}

impl Clone for SessionInfo {
    fn clone(&self) -> (r: Self)
        ensures
            r == *self,
    {
        SessionInfo {
            id: self.id.clone(),
            title: self.title.clone(),
            model_profile: self.model_profile.clone(),
            state: self.state.clone(),
            pinned: self.pinned,
            archived: self.archived,
            project_id: self.project_id.clone(),
            worktree_path: self.worktree_path.clone(),
            branch: self.branch.clone(),
            visibility: self.visibility,
        }
    }
}

impl Clone for SessionListRow {
    fn clone(&self) -> (r: Self)
        ensures
            r == *self,
    {
        match self {
            SessionListRow::Project(p) => SessionListRow::Project(p.clone()),
            SessionListRow::Session(s) => SessionListRow::Session(s.clone()),
        }
    }
}

/// The session belongs to the project with identifier `pid`.
pub open spec fn in_project(s: SessionInfo, pid: Seq<char>) -> bool {
    s.project_id matches Some(p) && p.value@ == pid
}

/// Some project has identifier `pid`.
pub open spec fn project_exists_spec(projects: Seq<ProjectInfo>, pid: Seq<char>) -> bool {
    exists|i: int| 0 <= i < projects.len() && #[trigger] projects[i].id.value@ == pid
}

/// Session rows listed under the project `pid`: its sessions that are not
/// archived, in order.
pub open spec fn project_session_rows(sessions: Seq<SessionInfo>, pid: Seq<char>) -> Seq<
    SessionListRow,
>
    decreases sessions.len(),
{
    if sessions.len() == 0 {
        Seq::empty()
    } else {
        let rest = project_session_rows(sessions.drop_last(), pid);
        let s = sessions.last();
        if !s.archived && in_project(s, pid) {
            rest.push(SessionListRow::Session(s.id))
        } else {
            rest
        }
    }
}

/// A session is listed on its own when it is not archived and belongs to no
/// listed project.
pub open spec fn is_loose(projects: Seq<ProjectInfo>, s: SessionInfo) -> bool {
    !s.archived && match s.project_id {
        None => true,
        Some(p) => !project_exists_spec(projects, p.value@),
    }
}

/// Rows of the sessions that belong to no listed project.
pub open spec fn loose_rows(projects: Seq<ProjectInfo>, sessions: Seq<SessionInfo>) -> Seq<
    SessionListRow,
>
    decreases sessions.len(),
{
    if sessions.len() == 0 {
        Seq::empty()
    } else {
        let rest = loose_rows(projects, sessions.drop_last());
        let s = sessions.last();
        if is_loose(projects, s) {
            rest.push(SessionListRow::Session(s.id))
        } else {
            rest
        }
    }
}

/// Rows of the projects: each project, followed by its sessions when it is
/// expanded.
pub open spec fn project_rows(projects: Seq<ProjectInfo>, sessions: Seq<SessionInfo>) -> Seq<
    SessionListRow,
>
    decreases projects.len(),
{
    if projects.len() == 0 {
        Seq::empty()
    } else {
        let rest = project_rows(projects.drop_last(), sessions);
        let p = projects.last();
        let with_header = rest.push(SessionListRow::Project(p.id));
        if p.expanded {
            with_header + project_session_rows(sessions, p.id.value@)
        } else {
            with_header
        }
    }
}

/// All rows of the sessions list, top to bottom.
pub open spec fn list_rows(projects: Seq<ProjectInfo>, sessions: Seq<SessionInfo>) -> Seq<
    SessionListRow,
> {
    project_rows(projects, sessions) + loose_rows(projects, sessions)
}

/// The archived sessions, in order.
pub open spec fn archived_spec(sessions: Seq<SessionInfo>) -> Seq<SessionInfo>
    decreases sessions.len(),
{
    if sessions.len() == 0 {
        Seq::empty()
    } else {
        let rest = archived_spec(sessions.drop_last());
        if sessions.last().archived {
            rest.push(sessions.last())
        } else {
            rest
        }
    }
}

/// The distinct project identifiers of archived sessions, in order of first
/// appearance.
pub open spec fn archived_project_ids(sessions: Seq<SessionInfo>) -> Seq<Seq<char>>
    decreases sessions.len(),
{
    if sessions.len() == 0 {
        Seq::empty()
    } else {
        let rest = archived_project_ids(sessions.drop_last());
        let s = sessions.last();
        if s.archived && s.project_id is Some && !rest.contains(s.project_id.unwrap().value@) {
            rest.push(s.project_id.unwrap().value@)
        } else {
            rest
        }
    }
}

/// The first project with identifier `pid`.
pub open spec fn find_project(projects: Seq<ProjectInfo>, pid: Seq<char>) -> Option<ProjectInfo>
    decreases projects.len(),
{
    if projects.len() == 0 {
        None
    } else if projects[0].id.value@ == pid {
        Some(projects[0])
    } else {
        find_project(projects.drop_first(), pid)
    }
}

/// The first session with identifier `sid`.
pub open spec fn find_session(sessions: Seq<SessionInfo>, sid: Seq<char>) -> Option<SessionInfo>
    decreases sessions.len(),
{
    if sessions.len() == 0 {
        None
    } else if sessions[0].id.value@ == sid {
        Some(sessions[0])
    } else {
        find_session(sessions.drop_first(), sid)
    }
}

proof fn lemma_find_project_step(projects: Seq<ProjectInfo>, pid: Seq<char>, i: int)
    requires
        0 <= i < projects.len(),
    ensures
        find_project(projects.subrange(i, projects.len() as int), pid) == if projects[i].id.value@
            == pid {
            Some(projects[i])
        } else {
            find_project(projects.subrange(i + 1, projects.len() as int), pid)
        },
{
    let s = projects.subrange(i, projects.len() as int);
    assert(s.drop_first() =~= projects.subrange(i + 1, projects.len() as int));
}

proof fn lemma_find_session_step(sessions: Seq<SessionInfo>, sid: Seq<char>, i: int)
    requires
        0 <= i < sessions.len(),
    ensures
        find_session(sessions.subrange(i, sessions.len() as int), sid) == if sessions[i].id.value@
            == sid {
            Some(sessions[i])
        } else {
            find_session(sessions.subrange(i + 1, sessions.len() as int), sid)
        },
{
    let s = sessions.subrange(i, sessions.len() as int);
    assert(s.drop_first() =~= sessions.subrange(i + 1, sessions.len() as int));
}

/// Position of the first project with the given identifier.
pub fn find_project_index(projects: &[ProjectInfo], id: &ProjectId) -> (r: Option<usize>)
    ensures
        r is None <==> find_project(projects@, id.value@) is None,
        r matches Some(i) ==> i < projects.len() && find_project(projects@, id.value@) == Some(
            projects@[i as int],
        ),
{
    let mut i: usize = 0;
    assert(projects@.subrange(0, projects@.len() as int) =~= projects@);
    while i < projects.len()
        invariant
            i <= projects.len(),
            find_project(projects@, id.value@) == find_project(
                projects@.subrange(i as int, projects@.len() as int),
                id.value@,
            ),
        decreases projects.len() - i,
    {
        proof {
            lemma_find_project_step(projects@, id.value@, i as int);
        }
        if projects[i].id.same_as(id) {
            return Some(i);
        }
        i = i + 1;
    }
    None
}

/// Position of the first session with the given identifier.
pub fn find_session_index(sessions: &[SessionInfo], id: &SessionId) -> (r: Option<usize>)
    ensures
        r is None <==> find_session(sessions@, id.value@) is None,
        r matches Some(i) ==> i < sessions.len() && find_session(sessions@, id.value@) == Some(
            sessions@[i as int],
        ),
{
    let mut i: usize = 0;
    assert(sessions@.subrange(0, sessions@.len() as int) =~= sessions@);
    while i < sessions.len()
        invariant
            i <= sessions.len(),
            find_session(sessions@, id.value@) == find_session(
                sessions@.subrange(i as int, sessions@.len() as int),
                id.value@,
            ),
        decreases sessions.len() - i,
    {
        proof {
            lemma_find_session_step(sessions@, id.value@, i as int);
        }
        if sessions[i].id.same_as(id) {
            return Some(i);
        }
        i = i + 1;
    }
    None
}

/// Whether some project has the given identifier.
pub fn project_exists(projects: &[ProjectInfo], project_id: &ProjectId) -> (b: bool)
    ensures
        b == project_exists_spec(projects@, project_id.value@),
{
    let mut i: usize = 0;
    while i < projects.len()
        invariant
            i <= projects.len(),
            forall|j: int| 0 <= j < i ==> #[trigger] projects@[j].id.value@ != project_id.value@,
        decreases projects.len() - i,
    {
        if projects[i].id.same_as(project_id) {
            return true;
        }
        i = i + 1;
    }
    false
}

/// Whether the session is not archived and belongs to the project.
fn session_in_project(s: &SessionInfo, pid: &ProjectId) -> (b: bool)
    ensures
        b == (!s.archived && in_project(*s, pid.value@)),
{
    if s.archived {
        return false;
    }
    match &s.project_id {
        Some(p) => p.same_as(pid),
        None => false,
    }
}

/// Appends the rows of the project's listed sessions.
fn push_project_session_rows(rows: &mut Vec<SessionListRow>, sessions: &[SessionInfo], pid: &ProjectId)
    ensures
        final(rows)@ == old(rows)@ + project_session_rows(sessions@, pid.value@),
{
    let ghost start = rows@;
    let mut i: usize = 0;
    while i < sessions.len()
        invariant
            i <= sessions.len(),
            rows@ == start + project_session_rows(sessions@.subrange(0, i as int), pid.value@),
        decreases sessions.len() - i,
    {
        proof {
            assert(sessions@.subrange(0, i + 1).drop_last() =~= sessions@.subrange(0, i as int));
        }
        if session_in_project(&sessions[i], pid) {
            rows.push(SessionListRow::Session(sessions[i].id.clone()));
        }
        i = i + 1;
        proof {
            assert(start + project_session_rows(sessions@.subrange(0, i - 1), pid.value@).push(
                SessionListRow::Session(sessions@[i - 1].id),
            ) =~= (start + project_session_rows(sessions@.subrange(0, i - 1), pid.value@)).push(
                SessionListRow::Session(sessions@[i - 1].id),
            ));
        }
    }
    assert(sessions@.subrange(0, sessions@.len() as int) =~= sessions@);
}

/// The rows of the sessions list: projects with their sessions (when
/// expanded), then the sessions that belong to no listed project; archived
/// sessions are left out.
pub fn session_list_rows(projects: &[ProjectInfo], sessions: &[SessionInfo]) -> (rows: Vec<
    SessionListRow,
>)
    ensures
        rows@ == list_rows(projects@, sessions@),
{
    let mut rows: Vec<SessionListRow> = Vec::new();
    let mut i: usize = 0;
    while i < projects.len()
        invariant
            i <= projects.len(),
            rows@ == project_rows(projects@.subrange(0, i as int), sessions@),
        decreases projects.len() - i,
    {
        proof {
            assert(projects@.subrange(0, i + 1).drop_last() =~= projects@.subrange(0, i as int));
        }
        rows.push(SessionListRow::Project(projects[i].id.clone()));
        if projects[i].expanded {
            push_project_session_rows(&mut rows, sessions, &projects[i].id);
        }
        i = i + 1;
    }
    assert(projects@.subrange(0, projects@.len() as int) =~= projects@);
    let ghost head = rows@;
    let mut j: usize = 0;
    while j < sessions.len()
        invariant
            j <= sessions.len(),
            rows@ == head + loose_rows(projects@, sessions@.subrange(0, j as int)),
        decreases sessions.len() - j,
    {
        proof {
            assert(sessions@.subrange(0, j + 1).drop_last() =~= sessions@.subrange(0, j as int));
        }
        let s = &sessions[j];
        let loose = if s.archived {
            false
        } else {
            match &s.project_id {
                None => true,
                Some(p) => !project_exists(projects, p),
            }
        };
        if loose {
            rows.push(SessionListRow::Session(s.id.clone()));
            proof {
                assert(head + loose_rows(projects@, sessions@.subrange(0, j as int)).push(
                    SessionListRow::Session(sessions@[j as int].id),
                ) =~= (head + loose_rows(projects@, sessions@.subrange(0, j as int))).push(
                    SessionListRow::Session(sessions@[j as int].id),
                ));
            }
        }
        j = j + 1;
    }
    assert(sessions@.subrange(0, sessions@.len() as int) =~= sessions@);
    rows
}

/// The archived sessions, copied, in order.
pub fn archived_sessions(sessions: &[SessionInfo]) -> (r: Vec<SessionInfo>)
    ensures
        r@ == archived_spec(sessions@),
{
    let mut r: Vec<SessionInfo> = Vec::new();
    let mut i: usize = 0;
    while i < sessions.len()
        invariant
            i <= sessions.len(),
            r@ == archived_spec(sessions@.subrange(0, i as int)),
        decreases sessions.len() - i,
    {
        proof {
            assert(sessions@.subrange(0, i + 1).drop_last() =~= sessions@.subrange(0, i as int));
        }
        if sessions[i].archived {
            r.push(sessions[i].clone());
        }
        i = i + 1;
    }
    assert(sessions@.subrange(0, sessions@.len() as int) =~= sessions@);
    r
}

proof fn lemma_archived_len_bound(sessions: Seq<SessionInfo>)
    ensures
        archived_spec(sessions).len() <= sessions.len(),
        archived_project_ids(sessions).len() <= archived_spec(sessions).len(),
    decreases sessions.len(),
{
    if sessions.len() > 0 {
        lemma_archived_len_bound(sessions.drop_last());
    }
}

/// How many sessions are archived, and across how many distinct projects.
pub fn archive_stats(sessions: &[SessionInfo]) -> (stats: ArchiveStats)
    ensures
        stats.total == archived_spec(sessions@).len(),
        stats.projects == archived_project_ids(sessions@).len(),
{
    let mut ids: Vec<String> = Vec::new();
    let mut total: usize = 0;
    let mut i: usize = 0;
    while i < sessions.len()
        invariant
            i <= sessions.len(),
            total == archived_spec(sessions@.subrange(0, i as int)).len(),
            ids@.map_values(|s: String| s@) == archived_project_ids(sessions@.subrange(0, i as int)),
        decreases sessions.len() - i,
    {
        proof {
            assert(sessions@.subrange(0, i + 1).drop_last() =~= sessions@.subrange(0, i as int));
            lemma_archived_len_bound(sessions@.subrange(0, i as int));
        }
        let s = &sessions[i];
        if s.archived {
            total = total + 1;
            match &s.project_id {
                Some(p) => {
                    let mut seen = false;
                    let mut k: usize = 0;
                    while k < ids.len()
                        invariant
                            k <= ids.len(),
                            seen == (exists|q: int| 0 <= q < k && #[trigger] ids@[q]@ == p.value@),
                        decreases ids.len() - k,
                    {
                        if ids[k] == p.value {
                            seen = true;
                        }
                        k = k + 1;
                    }
                    let ghost before = ids@.map_values(|s: String| s@);
                    proof {
                        if seen {
                            let q = choose|q: int| 0 <= q < ids.len() && #[trigger] ids@[q]@ == p.value@;
                            assert(before[q] == p.value@);
                        } else {
                            assert forall|q: int| 0 <= q < before.len() implies before[q] != p.value@ by {
                                assert(before[q] == ids@[q]@);
                            }
                        }
                    }
                    if !seen {
                        ids.push(p.value.clone());
                        assert(ids@.map_values(|s: String| s@) =~= before.push(p.value@));
                    }
                },
                None => {},
            }
        }
        i = i + 1;
    }
    assert(sessions@.subrange(0, sessions@.len() as int) =~= sessions@);
    proof {
        lemma_archived_len_bound(sessions@);
    }
    ArchiveStats { total, projects: ids.len() }
}

} // verus!
