//! Properties of the sessions list and panel that hold for every input.

use vstd::prelude::*;

use crate::keys::KeyCode;
use crate::commands::Command;
use crate::ids::ProjectId;
use crate::sessions::panel::{
    activate_spec, archive_key_spec, menu_key_spec, open_archive_spec, open_menu_spec, PanelView,
    SessionAction, Target,
};
use crate::sessions::types::{
    archived_project_ids, archived_spec, in_project, is_loose, list_rows, loose_rows, project_rows,
    project_session_rows, ProjectInfo, SessionInfo, SessionListRow,
};

verus! {

/// Every session row stands for a session of the input that is not
/// archived.
pub open spec fn rows_from_unarchived(rows: Seq<SessionListRow>, sessions: Seq<SessionInfo>) -> bool {
    forall|k: int| #![trigger rows[k]] 0 <= k < rows.len() ==> (rows[k] matches SessionListRow::Session(sid)
        ==> exists|j: int| 0 <= j < sessions.len() && #[trigger] sessions[j].id == sid && !sessions[j].archived)
}

proof fn lemma_project_session_rows(sessions: Seq<SessionInfo>, pid: Seq<char>, all: Seq<SessionInfo>)
    requires
        forall|j: int| 0 <= j < sessions.len() ==> all.contains(#[trigger] sessions[j]),
    ensures
        rows_from_unarchived(project_session_rows(sessions, pid), all),
    decreases sessions.len(),
{
    if sessions.len() > 0 {
        let rest = sessions.drop_last();
        assert forall|j: int| 0 <= j < rest.len() implies all.contains(#[trigger] rest[j]) by {
            assert(rest[j] == sessions[j]);
        }
        lemma_project_session_rows(rest, pid, all);
        let s = sessions.last();
        assert(all.contains(sessions[sessions.len() - 1]));
    }
}

proof fn lemma_loose_rows(projects: Seq<ProjectInfo>, sessions: Seq<SessionInfo>, all: Seq<SessionInfo>)
    requires
        forall|j: int| 0 <= j < sessions.len() ==> all.contains(#[trigger] sessions[j]),
    ensures
        rows_from_unarchived(loose_rows(projects, sessions), all),
    decreases sessions.len(),
{
    if sessions.len() > 0 {
        let rest = sessions.drop_last();
        assert forall|j: int| 0 <= j < rest.len() implies all.contains(#[trigger] rest[j]) by {
            assert(rest[j] == sessions[j]);
        }
        lemma_loose_rows(projects, rest, all);
        assert(all.contains(sessions[sessions.len() - 1]));
    }
}

proof fn lemma_project_rows(projects: Seq<ProjectInfo>, sessions: Seq<SessionInfo>)
    ensures
        rows_from_unarchived(project_rows(projects, sessions), sessions),
    decreases projects.len(),
{
    if projects.len() > 0 {
        lemma_project_rows(projects.drop_last(), sessions);
        let p = projects.last();
        let rest = project_rows(projects.drop_last(), sessions);
        let head = rest.push(SessionListRow::Project(p.id));
        assert forall|j: int| 0 <= j < sessions.len() implies sessions.contains(#[trigger] sessions[j]) by {}
        lemma_project_session_rows(sessions, p.id.value@, sessions);
        if p.expanded {
            let tail = project_session_rows(sessions, p.id.value@);
            let all = head + tail;
            assert forall|k: int| #![trigger all[k]] 0 <= k < all.len() implies (all[k] matches SessionListRow::Session(sid)
                ==> exists|j: int| 0 <= j < sessions.len() && #[trigger] sessions[j].id == sid && !sessions[j].archived) by {
                if k >= head.len() {
                    assert(all[k] == tail[k - head.len()]);
                } else if k < rest.len() {
                    assert(all[k] == rest[k]);
                }
            }
        } else {
            assert forall|k: int| #![trigger head[k]] 0 <= k < head.len() implies (head[k] matches SessionListRow::Session(sid)
                ==> exists|j: int| 0 <= j < sessions.len() && #[trigger] sessions[j].id == sid && !sessions[j].archived) by {
                if k < rest.len() {
                    assert(head[k] == rest[k]);
                }
            }
        }
    }
}

/// The sessions list never shows an archived session: every session row
/// names a session that is not archived.
pub proof fn law_list_rows_skip_archived(projects: Seq<ProjectInfo>, sessions: Seq<SessionInfo>)
    ensures
        rows_from_unarchived(list_rows(projects, sessions), sessions),
{
    lemma_project_rows(projects, sessions);
    assert forall|j: int| 0 <= j < sessions.len() implies sessions.contains(#[trigger] sessions[j]) by {}
    lemma_loose_rows(projects, sessions, sessions);
    let a = project_rows(projects, sessions);
    let b = loose_rows(projects, sessions);
    let all = a + b;
    assert forall|k: int| #![trigger all[k]] 0 <= k < all.len() implies (all[k] matches SessionListRow::Session(sid)
        ==> exists|j: int| 0 <= j < sessions.len() && #[trigger] sessions[j].id == sid && !sessions[j].archived) by {
        if k < a.len() {
            assert(all[k] == a[k]);
        } else {
            assert(all[k] == b[k - a.len()]);
        }
    }
}

/// The archive manager counts no more projects than archived sessions, and
/// no more archived sessions than sessions.
pub proof fn law_archive_stats_bounds(sessions: Seq<SessionInfo>)
    ensures
        archived_project_ids(sessions).len() <= archived_spec(sessions).len(),
        archived_spec(sessions).len() <= sessions.len(),
    decreases sessions.len(),
{
    if sessions.len() > 0 {
        law_archive_stats_bounds(sessions.drop_last());
    }
}

/// Opening the archive manager closes the action overlay, and opening the
/// action overlay closes the archive manager: the two are never open at
/// once through these operations.
pub proof fn law_overlays_exclusive(v: PanelView, projects: Seq<ProjectInfo>, sessions: Seq<SessionInfo>)
    ensures
        !open_archive_spec(v, sessions).menu_open,
        open_menu_spec(v, projects, sessions).menu_open ==> !open_menu_spec(v, projects, sessions).archive_open,
{
}

/// Keys in the action menu never open the archive manager, and keys in the
/// archive manager never open the action menu.
pub proof fn law_keys_keep_overlays_apart(v: PanelView, code: KeyCode, projects: Seq<ProjectInfo>, sessions: Seq<SessionInfo>)
    ensures
        !v.archive_open ==> !menu_key_spec(v, code, projects, sessions).0.archive_open,
        !v.menu_open ==> !archive_key_spec(v, code, sessions).0.menu_open,
{
}

/// The archive cursor stays on an archived session after the archive
/// manager opens, when there is one.
pub proof fn law_archive_cursor_in_range(v: PanelView, sessions: Seq<SessionInfo>)
    requires
        archived_spec(sessions).len() > 0,
    ensures
        open_archive_spec(v, sessions).archive_cursor < archived_spec(sessions).len(),
{
}

/// Moving a project up and moving it down ask for opposite steps of one
/// place, up toward the top (a step of -1), down toward the bottom (+1),
/// each for the project it was asked on, and nothing else.
pub proof fn law_move_project_directions(v: PanelView, p: ProjectInfo)
    ensures
        ({
            let up = activate_spec(v, SessionAction::MoveProjectUp, Target::Project(p)).1;
            let down = activate_spec(v, SessionAction::MoveProjectDown, Target::Project(p)).1;
            &&& up.len() == 1
            &&& down.len() == 1
            &&& up[0] matches Command::MoveProject { project_id: a, direction: du }
            &&& down[0] matches Command::MoveProject { project_id: b, direction: dd }
            &&& a == p.id && b == p.id
            &&& du < 0 && dd > 0 && du == -dd && dd == 1
        }),
{
}

/// Every row listed under a project is a session row.
proof fn lemma_session_rows_are_sessions(sessions: Seq<SessionInfo>, pid: Seq<char>)
    ensures
        forall|k: int| 0 <= k < project_session_rows(sessions, pid).len()
            ==> #[trigger] project_session_rows(sessions, pid)[k] is Session,
    decreases sessions.len(),
{
    if sessions.len() > 0 {
        lemma_session_rows_are_sessions(sessions.drop_last(), pid);
    }
}

/// Every row after the projects stands for a session of the input that
/// belongs to no listed project.
proof fn lemma_loose_rows_are_loose(projects: Seq<ProjectInfo>, sessions: Seq<SessionInfo>)
    ensures
        forall|k: int| #![trigger loose_rows(projects, sessions)[k]] 0 <= k < loose_rows(projects, sessions).len()
            ==> (loose_rows(projects, sessions)[k] matches SessionListRow::Session(sid)
            && exists|j: int| 0 <= j < sessions.len() && #[trigger] sessions[j].id == sid && is_loose(projects, sessions[j])),
    decreases sessions.len(),
{
    if sessions.len() > 0 {
        let rest = sessions.drop_last();
        lemma_loose_rows_are_loose(projects, rest);
        let r = loose_rows(projects, rest);
        let all = loose_rows(projects, sessions);
        assert forall|k: int| #![trigger all[k]] 0 <= k < all.len() implies (all[k] matches SessionListRow::Session(sid)
            && exists|j: int| 0 <= j < sessions.len() && #[trigger] sessions[j].id == sid && is_loose(projects, sessions[j])) by {
            if k < r.len() {
                assert(all[k] == r[k]);
                let sid = all[k]->Session_0;
                let j = choose|j: int| 0 <= j < rest.len() && #[trigger] rest[j].id == sid && is_loose(projects, rest[j]);
                assert(sessions[j] == rest[j]);
            } else {
                assert(sessions[sessions.len() - 1] == sessions.last());
            }
        }
    }
}

/// Among the project rows, a collapsed project's header is followed by
/// another project's header or by nothing.
proof fn lemma_collapsed_header(projects: Seq<ProjectInfo>, sessions: Seq<SessionInfo>, k: int, id: ProjectId)
    requires
        0 <= k < project_rows(projects, sessions).len(),
        project_rows(projects, sessions)[k] == SessionListRow::Project(id),
        forall|j: int| 0 <= j < projects.len() && #[trigger] projects[j].id == id ==> !projects[j].expanded,
    ensures
        k + 1 == project_rows(projects, sessions).len() || project_rows(projects, sessions)[k + 1] is Project,
    decreases projects.len(),
{
    let p = projects.last();
    let rest = project_rows(projects.drop_last(), sessions);
    let head = rest.push(SessionListRow::Project(p.id));
    let tail = project_session_rows(sessions, p.id.value@);
    let all = project_rows(projects, sessions);
    lemma_session_rows_are_sessions(sessions, p.id.value@);
    if p.expanded {
        assert(all == head + tail);
    } else {
        assert(all == head);
    }
    if k < rest.len() {
        assert(all[k] == rest[k]);
        assert forall|j: int| 0 <= j < projects.drop_last().len() && #[trigger] projects.drop_last()[j].id == id
            implies !projects.drop_last()[j].expanded by {
            assert(projects.drop_last()[j] == projects[j]);
        }
        lemma_collapsed_header(projects.drop_last(), sessions, k, id);
        if k + 1 < rest.len() {
            assert(all[k + 1] == rest[k + 1]);
        } else {
            assert(all[k + 1] == SessionListRow::Project(p.id));
        }
    } else if k == rest.len() {
        assert(all[k] == SessionListRow::Project(p.id));
        assert(projects[projects.len() - 1] == p);
        assert(!p.expanded);
    } else {
        assert(all[k] == tail[k - head.len()]);
    }
}

/// A session that is not archived is listed under its project.
proof fn lemma_session_listed_under_project(sessions: Seq<SessionInfo>, pid: Seq<char>, j: int)
    requires
        0 <= j < sessions.len(),
        !sessions[j].archived,
        in_project(sessions[j], pid),
    ensures
        project_session_rows(sessions, pid).contains(SessionListRow::Session(sessions[j].id)),
    decreases sessions.len(),
{
    let rest = project_session_rows(sessions.drop_last(), pid);
    let all = project_session_rows(sessions, pid);
    let row = SessionListRow::Session(sessions[j].id);
    if j == sessions.len() - 1 {
        assert(sessions.last() == sessions[j]);
        assert(all == rest.push(row));
        assert(all[rest.len() as int] == row);
    } else {
        assert(sessions.drop_last()[j] == sessions[j]);
        lemma_session_listed_under_project(sessions.drop_last(), pid, j);
        let k = choose|k: int| 0 <= k < rest.len() && rest[k] == row;
        if !sessions.last().archived && in_project(sessions.last(), pid) {
            assert(all == rest.push(SessionListRow::Session(sessions.last().id)));
            assert(all[k] == rest[k]);
        } else {
            assert(all == rest);
        }
    }
}

/// The rows of an expanded project's sessions stand among the project rows.
proof fn lemma_expanded_rows_listed(projects: Seq<ProjectInfo>, sessions: Seq<SessionInfo>, i: int, r: SessionListRow)
    requires
        0 <= i < projects.len(),
        projects[i].expanded,
        project_session_rows(sessions, projects[i].id.value@).contains(r),
    ensures
        project_rows(projects, sessions).contains(r),
    decreases projects.len(),
{
    let p = projects.last();
    let rest = project_rows(projects.drop_last(), sessions);
    let head = rest.push(SessionListRow::Project(p.id));
    let all = project_rows(projects, sessions);
    if i == projects.len() - 1 {
        assert(projects[i] == p);
        let tail = project_session_rows(sessions, p.id.value@);
        assert(all == head + tail);
        let k = choose|k: int| 0 <= k < tail.len() && tail[k] == r;
        assert(all[head.len() + k] == tail[k]);
    } else {
        assert(projects.drop_last()[i] == projects[i]);
        lemma_expanded_rows_listed(projects.drop_last(), sessions, i, r);
        let k = choose|k: int| 0 <= k < rest.len() && rest[k] == r;
        if p.expanded {
            assert(all == head + project_session_rows(sessions, p.id.value@));
        } else {
            assert(all == head);
        }
        assert(all[k] == head[k]);
    }
}

/// An expanded project shows its sessions: every session that is not
/// archived and belongs to an expanded project has a row in the sessions
/// list.
pub proof fn law_expanded_project_shows_sessions(
    projects: Seq<ProjectInfo>,
    sessions: Seq<SessionInfo>,
    i: int,
    j: int,
)
    requires
        0 <= i < projects.len(),
        projects[i].expanded,
        0 <= j < sessions.len(),
        !sessions[j].archived,
        in_project(sessions[j], projects[i].id.value@),
    ensures
        list_rows(projects, sessions).contains(SessionListRow::Session(sessions[j].id)),
{
    let row = SessionListRow::Session(sessions[j].id);
    lemma_session_listed_under_project(sessions, projects[i].id.value@, j);
    lemma_expanded_rows_listed(projects, sessions, i, row);
    let a = project_rows(projects, sessions);
    let k = choose|k: int| 0 <= k < a.len() && a[k] == row;
    assert(list_rows(projects, sessions)[k] == a[k]);
}

/// A collapsed project shows none of its sessions: in the sessions list,
/// the row after the header of a project that is not expanded is another
/// project's header, or a session that belongs to no listed project.
pub proof fn law_collapsed_project_shows_no_sessions(
    projects: Seq<ProjectInfo>,
    sessions: Seq<SessionInfo>,
    k: int,
    id: ProjectId,
)
    requires
        0 <= k && k + 1 < list_rows(projects, sessions).len(),
        list_rows(projects, sessions)[k] == SessionListRow::Project(id),
        forall|j: int| 0 <= j < projects.len() && #[trigger] projects[j].id == id ==> !projects[j].expanded,
    ensures
        list_rows(projects, sessions)[k + 1] is Project || (list_rows(projects, sessions)[k + 1] matches SessionListRow::Session(sid)
            && exists|j: int| 0 <= j < sessions.len() && #[trigger] sessions[j].id == sid && is_loose(projects, sessions[j])),
{
    let a = project_rows(projects, sessions);
    let b = loose_rows(projects, sessions);
    let rows = list_rows(projects, sessions);
    assert(rows == a + b);
    lemma_loose_rows_are_loose(projects, sessions);
    if k < a.len() {
        assert(rows[k] == a[k]);
        lemma_collapsed_header(projects, sessions, k, id);
        if k + 1 < a.len() {
            assert(rows[k + 1] == a[k + 1]);
        } else {
            assert(rows[k + 1] == b[0]);
        }
    } else {
        assert(rows[k] == b[k - a.len()]);
    }
}

} // verus!
