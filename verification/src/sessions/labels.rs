//! The text of the sessions list: row lines, status and metadata labels,
//! and the labels of the actions.

use vstd::prelude::*;

use crate::sessions::panel::{target_spec, SelectedRow, SessionAction, SessionActionMode, SessionsPanel, Target};
use crate::sessions::types::{
    ArchiveStats, find_project, find_project_index, in_project, ProjectGitStatus, ProjectGitStatusKind,
    ProjectInfo, ProjectInstructionSummary, ProjectSessionVisibility, SessionInfo, SessionState,
};
use crate::styled::{fg, line_view, plain, span, style_bold, style_dim, style_fg, style_plain, SpanStyle, SpanView, StyledSpan, Tone};
use crate::text::{concat, copy_str, decimal_seq, find_str, is_first_occurrence, join, join_seq, seq_contains, u64_to_string, views};

verus! {

/// Marker of the directory that holds managed worktrees.
pub open spec fn worktree_marker() -> Seq<char> {
    ".kairox/"@
}

/// A worktree path shortened to what follows the first `.kairox/`, or the
/// whole path when there is none.
pub open spec fn compact_path_spec(path: Seq<char>) -> Seq<char> {
    if seq_contains(path, worktree_marker()) {
        let i = choose|i: int| is_first_occurrence(path, worktree_marker(), i);
        path.subrange(i + worktree_marker().len(), path.len() as int)
    } else {
        path
    }
}

proof fn lemma_first_occurrence_unique(hay: Seq<char>, needle: Seq<char>, i: int, j: int)
    requires
        is_first_occurrence(hay, needle, i),
        is_first_occurrence(hay, needle, j),
    ensures
        i == j,
{
    if i < j {
        assert(hay.subrange(i, i + needle.len()) != needle);
    }
    if j < i {
        assert(hay.subrange(j, j + needle.len()) != needle);
    }
}

/// Shortens a worktree path to what follows the first `.kairox/`.
pub fn compact_worktree_path(path: &str) -> (r: String)
    ensures
        r@ == compact_path_spec(path@),
{
    let marker = ".kairox/";
    proof {
        reveal_strlit(".kairox/");
    }
    match find_str(path, marker) {
        Some(i) => {
            proof {
                let k = choose|k: int| is_first_occurrence(path@, worktree_marker(), k);
                lemma_first_occurrence_unique(path@, worktree_marker(), i as int, k);
            }
            let n = path.unicode_len();
            String::from_str(path.substring_char(i + 8, n))
        },
        None => copy_str(path),
    }
}

/// Icon and colour of a session's run state.
pub fn session_state_icon(state: &SessionState) -> (r: (&'static str, Tone))
    ensures
        r.0@ == match state {
            SessionState::Active => "●"@,
            SessionState::Idle => "○"@,
            SessionState::Error(_) => "✕"@,
            SessionState::AwaitingPermission => "⚠"@,
        },
        r.1 == match state {
            SessionState::Active => Tone::Green,
            SessionState::Idle => Tone::DarkGray,
            SessionState::Error(_) => Tone::Red,
            SessionState::AwaitingPermission => Tone::Yellow,
        },
{
    match state {
        SessionState::Active => ("●", Tone::Green),
        SessionState::Idle => ("○", Tone::DarkGray),
        SessionState::Error(_) => ("✕", Tone::Red),
        SessionState::AwaitingPermission => ("⚠", Tone::Yellow),
    }
}

/// Label and colour of a project's git status.
pub open spec fn git_label_spec(status: ProjectGitStatus) -> (Seq<char>, Tone) {
    match status.kind {
        ProjectGitStatusKind::NotInitialized => ("git not initialized"@, Tone::Yellow),
        ProjectGitStatusKind::Clean => (
            match status.branch {
                Some(b) => "git "@ + b@,
                None => "git clean"@,
            },
            Tone::Green,
        ),
        ProjectGitStatusKind::Dirty => (
            match status.branch {
                Some(b) => "dirty "@ + b@,
                None => "dirty"@,
            },
            Tone::Yellow,
        ),
        ProjectGitStatusKind::Detached => ("detached"@, Tone::Yellow),
        ProjectGitStatusKind::MissingPath => ("missing path"@, Tone::Red),
        ProjectGitStatusKind::Error => (
            match status.message {
                Some(m) => if m@.len() > 0 { "git error: "@ + m@ } else { "git error"@ },
                None => "git error"@,
            },
            Tone::Red,
        ),
    }
}

/// Label and colour of a project's git status.
pub fn project_git_status_label(status: &ProjectGitStatus) -> (r: (String, Tone))
    ensures
        (r.0@, r.1) == git_label_spec(*status),
{
    match status.kind {
        ProjectGitStatusKind::NotInitialized => (String::from_str("git not initialized"), Tone::Yellow),
        ProjectGitStatusKind::Clean => (
            match &status.branch {
                Some(b) => concat("git ", b.as_str()),
                None => String::from_str("git clean"),
            },
            Tone::Green,
        ),
        ProjectGitStatusKind::Dirty => (
            match &status.branch {
                Some(b) => concat("dirty ", b.as_str()),
                None => String::from_str("dirty"),
            },
            Tone::Yellow,
        ),
        ProjectGitStatusKind::Detached => (String::from_str("detached"), Tone::Yellow),
        ProjectGitStatusKind::MissingPath => (String::from_str("missing path"), Tone::Red),
        ProjectGitStatusKind::Error => (
            match &status.message {
                Some(m) => if m.as_str().unicode_len() > 0 {
                    concat("git error: ", m.as_str())
                } else {
                    String::from_str("git error")
                },
                None => String::from_str("git error"),
            },
            Tone::Red,
        ),
    }
}

/// The final component of a path, as `Path::file_name` gives it (when it is
/// valid text).
pub uninterp spec fn path_file_name(path: Seq<char>) -> Option<Seq<char>>;

/// Calls `Path::file_name` on the path and keeps the name when it is valid
/// text; the result is named by [`path_file_name`].
#[verifier::external_body]
fn file_name_of(path: &str) -> (r: Option<String>)
    ensures
        r is None <==> path_file_name(path@) is None,
        r matches Some(n) ==> path_file_name(path@) == Some(n@),
{
    std::path::Path::new(path).file_name().and_then(|n| n.to_str()).map(|n| n.to_string())
}

/// File names of the paths that have one, in order.
pub open spec fn file_names(paths: Seq<Seq<char>>) -> Seq<Seq<char>>
    decreases paths.len(),
{
    if paths.len() == 0 {
        Seq::empty()
    } else {
        let rest = file_names(paths.drop_last());
        match path_file_name(paths.last()) {
            Some(n) => rest.push(n),
            None => rest,
        }
    }
}

/// The label of a project's instruction files: the first two file names,
/// or their count when none has a name.
pub open spec fn instruction_label_spec(paths: Seq<Seq<char>>) -> Seq<char> {
    let names = file_names(paths);
    if paths.len() == 0 {
        "instructions none"@
    } else if names.len() == 0 {
        "instructions "@ + decimal_seq(paths.len())
    } else {
        "instructions "@ + join_seq(names.take(if names.len() < 2 { names.len() as int } else { 2 }), ", "@)
    }
}

/// The label of a project's instruction files.
pub fn project_instruction_label(summary: &ProjectInstructionSummary) -> (r: String)
    requires
        summary.source_paths.len() <= u64::MAX,
    ensures
        r@ == instruction_label_spec(views(summary.source_paths@)),
{
    let paths = &summary.source_paths;
    if paths.len() == 0 {
        return String::from_str("instructions none");
    }
    let mut names: Vec<String> = Vec::new();
    let mut i: usize = 0;
    while i < paths.len()
        invariant
            i <= paths.len(),
            views(names@) == file_names(views(paths@.subrange(0, i as int))),
        decreases paths.len() - i,
    {
        proof {
            assert(views(paths@.subrange(0, i + 1)).drop_last() =~= views(paths@.subrange(0, i as int)));
            assert(views(paths@.subrange(0, i + 1)).last() == paths@[i as int]@);
        }
        match file_name_of(paths[i].as_str()) {
            Some(n) => {
                let ghost before = views(names@);
                names.push(n);
                assert(views(names@) =~= before.push(n@));
            },
            None => {},
        }
        i = i + 1;
    }
    assert(paths@.subrange(0, paths@.len() as int) =~= paths@);
    assert(views(paths@).len() == paths@.len());
    if names.len() == 0 {
        return concat("instructions ", u64_to_string(paths.len() as u64).as_str());
    }
    let keep = if names.len() < 2 { names.len() } else { 2 };
    let mut first: Vec<String> = Vec::new();
    let mut k: usize = 0;
    while k < keep
        invariant
            keep <= names.len(),
            k <= keep,
            first@ == names@.subrange(0, k as int),
        decreases keep - k,
    {
        first.push(names[k].clone());
        k = k + 1;
        assert(first@ =~= names@.subrange(0, k as int));
    }
    assert(views(first@) =~= views(names@).take(keep as int));
    concat("instructions ", join(first.as_slice(), ", ").as_str())
}

/// The metadata parts of a session, in order: `draft` for hidden drafts,
/// the branch, and the compacted worktree path.
pub open spec fn metadata_parts(s: SessionInfo) -> Seq<Seq<char>> {
    let p1: Seq<Seq<char>> = if s.visibility == Some(ProjectSessionVisibility::DraftHidden) {
        seq!["draft"@]
    } else {
        Seq::empty()
    };
    let p2 = match s.branch {
        Some(b) => if b@.len() > 0 { p1.push("branch "@ + b@) } else { p1 },
        None => p1,
    };
    match s.worktree_path {
        Some(w) => if w@.len() > 0 { p2.push(compact_path_spec(w@)) } else { p2 },
        None => p2,
    }
}

/// The metadata parts of a session joined with ` · `, or nothing.
pub fn session_metadata_label(session: &SessionInfo) -> (r: Option<String>)
    ensures
        metadata_parts(*session).len() == 0 ==> r is None,
        metadata_parts(*session).len() > 0 ==> (r matches Some(t) && t@ == join_seq(
            metadata_parts(*session),
            " · "@,
        )),
{
    let mut parts: Vec<String> = Vec::new();
    if session.visibility == Some(ProjectSessionVisibility::DraftHidden) {
        parts.push(String::from_str("draft"));
    }
    match &session.branch {
        Some(b) => if b.as_str().unicode_len() > 0 {
            parts.push(concat("branch ", b.as_str()));
        },
        None => {},
    }
    match &session.worktree_path {
        Some(w) => if w.as_str().unicode_len() > 0 {
            parts.push(compact_worktree_path(w.as_str()));
        },
        None => {},
    }
    assert(views(parts@) =~= metadata_parts(*session));
    if parts.len() == 0 {
        None
    } else {
        Some(join(parts.as_slice(), " · "))
    }
}

/// The name shown for an archived session's project: the project's display
/// name, or its identifier when the project is gone; nothing for a session
/// without a project.
pub fn archive_project_label(projects: &[ProjectInfo], session: &SessionInfo) -> (r: Option<String>)
    ensures
        session.project_id is None ==> r is None,
        session.project_id matches Some(pid) ==> (r matches Some(t) && t@ == match find_project(
            projects@,
            pid.value@,
        ) {
            Some(p) => p.display_name@,
            None => pid.value@,
        }),
{
    let pid = match &session.project_id {
        Some(p) => p,
        None => return None,
    };
    match find_project_index(projects, pid) {
        Some(i) => Some(projects[i].display_name.clone()),
        None => Some(pid.to_text()),
    }
}

/// Menu label of an action.
pub open spec fn action_label_spec(action: SessionAction) -> Seq<char> {
    match action {
        SessionAction::Rename => "Rename"@,
        SessionAction::Archive => "Archive"@,
        SessionAction::Restore => "Restore"@,
        SessionAction::Delete => "Delete permanently"@,
        SessionAction::RemoveProject => "Remove project"@,
        SessionAction::MoveProjectUp => "Move project up"@,
        SessionAction::MoveProjectDown => "Move project down"@,
        SessionAction::ToggleExpanded => "Expand/collapse"@,
        SessionAction::NewDraft => "New draft session"@,
        SessionAction::NewWorktree => "New worktree session"@,
        SessionAction::GitStatus => "Refresh git status"@,
        SessionAction::InitGit => "Initialize git"@,
        SessionAction::Instructions => "Show instructions"@,
    }
}

/// Menu label of an action.
pub fn action_label(action: SessionAction) -> (r: &'static str)
    ensures
        r@ == action_label_spec(action),
{
    match action {
        SessionAction::Rename => "Rename",
        SessionAction::Archive => "Archive",
        SessionAction::Restore => "Restore",
        SessionAction::Delete => "Delete permanently",
        SessionAction::RemoveProject => "Remove project",
        SessionAction::MoveProjectUp => "Move project up",
        SessionAction::MoveProjectDown => "Move project down",
        SessionAction::ToggleExpanded => "Expand/collapse",
        SessionAction::NewDraft => "New draft session",
        SessionAction::NewWorktree => "New worktree session",
        SessionAction::GitStatus => "Refresh git status",
        SessionAction::InitGit => "Initialize git",
        SessionAction::Instructions => "Show instructions",
    }
}

/// Shortcut key shown next to an action.
pub open spec fn action_key_spec(action: SessionAction) -> Seq<char> {
    match action {
        SessionAction::Rename => "r"@,
        SessionAction::Archive => "a"@,
        SessionAction::Restore => "r"@,
        SessionAction::Delete => "d"@,
        SessionAction::RemoveProject => "d"@,
        SessionAction::MoveProjectUp => "↑"@,
        SessionAction::MoveProjectDown => "↓"@,
        SessionAction::ToggleExpanded => "e"@,
        SessionAction::NewDraft => "n"@,
        SessionAction::NewWorktree => "w"@,
        SessionAction::GitStatus => "g"@,
        SessionAction::InitGit => "i"@,
        SessionAction::Instructions => "I"@,
    }
}

/// Shortcut key shown next to an action.
pub fn action_key(action: SessionAction) -> (r: &'static str)
    ensures
        r@ == action_key_spec(action),
{
    match action {
        SessionAction::Rename => "r",
        SessionAction::Archive => "a",
        SessionAction::Restore => "r",
        SessionAction::Delete => "d",
        SessionAction::RemoveProject => "d",
        SessionAction::MoveProjectUp => "↑",
        SessionAction::MoveProjectDown => "↓",
        SessionAction::ToggleExpanded => "e",
        SessionAction::NewDraft => "n",
        SessionAction::NewWorktree => "w",
        SessionAction::GitStatus => "g",
        SessionAction::InitGit => "i",
        SessionAction::Instructions => "I",
    }
}

/// How many sessions of the project are listed (not archived).
pub open spec fn project_session_count(sessions: Seq<SessionInfo>, pid: Seq<char>) -> nat
    decreases sessions.len(),
{
    if sessions.len() == 0 {
        0
    } else {
        project_session_count(sessions.drop_last(), pid) + if !sessions.last().archived && in_project(sessions.last(), pid) {
            1nat
        } else {
            0nat
        }
    }
}

proof fn lemma_count_bound(sessions: Seq<SessionInfo>, pid: Seq<char>)
    ensures
        project_session_count(sessions, pid) <= sessions.len(),
    decreases sessions.len(),
{
    if sessions.len() > 0 {
        lemma_count_bound(sessions.drop_last(), pid);
    }
}

/// The spans of a project row: expand marker, name, session count, then
/// the git status and the instruction files when known.
pub open spec fn project_row_spec(p: ProjectInfo, count: nat, instructions: Seq<char>) -> Seq<SpanView> {
    let base = seq![
        SpanView { text: (if p.expanded { "▾"@ } else { "▸"@ }) + " "@, style: fg(Tone::Cyan) },
        SpanView { text: p.display_name@, style: SpanStyle { fg: None, bold: true, dim: false } },
        SpanView { text: " ("@ + decimal_seq(count) + ")"@, style: fg(Tone::DarkGray) },
    ];
    let with_git = match p.git_status {
        Some(st) => base.push(SpanView { text: " · "@ + git_label_spec(st).0, style: fg(git_label_spec(st).1) }),
        None => base,
    };
    match p.instruction_summary {
        Some(_) => with_git.push(SpanView { text: " · "@ + instructions, style: fg(Tone::DarkGray) }),
        None => with_git,
    }
}

/// The spans of a project row.
pub fn project_row_line(project: &ProjectInfo, sessions: &[SessionInfo]) -> (r: Vec<StyledSpan>)
    requires
        sessions.len() <= u64::MAX,
        project.instruction_summary matches Some(s) ==> s.source_paths.len() <= u64::MAX,
    ensures
        line_view(r@) == project_row_spec(
            *project,
            project_session_count(sessions@, project.id.value@),
            match project.instruction_summary {
                Some(s) => instruction_label_spec(views(s.source_paths@)),
                None => Seq::empty(),
            },
        ),
{
    let mut count: usize = 0;
    let mut i: usize = 0;
    while i < sessions.len()
        invariant
            i <= sessions.len(),
            sessions.len() <= u64::MAX,
            count == project_session_count(sessions@.subrange(0, i as int), project.id.value@),
        decreases sessions.len() - i,
    {
        proof {
            assert(sessions@.subrange(0, i + 1).drop_last() =~= sessions@.subrange(0, i as int));
            lemma_count_bound(sessions@.subrange(0, i as int), project.id.value@);
        }
        let s = &sessions[i];
        let belongs = !s.archived && match &s.project_id {
            Some(p) => p.same_as(&project.id),
            None => false,
        };
        if belongs {
            count = count + 1;
        }
        i = i + 1;
    }
    assert(sessions@.subrange(0, sessions@.len() as int) =~= sessions@);
    let marker = if project.expanded { "▾" } else { "▸" };
    let mut spans: Vec<StyledSpan> = Vec::new();
    spans.push(span(concat(marker, " "), style_fg(Tone::Cyan)));
    spans.push(span(project.display_name.clone(), style_bold()));
    let n = u64_to_string(count as u64);
    spans.push(span(concat(concat(" (", n.as_str()).as_str(), ")"), style_fg(Tone::DarkGray)));
    match &project.git_status {
        Some(st) => {
            let (label, tone) = project_git_status_label(st);
            spans.push(span(concat(" · ", label.as_str()), style_fg(tone)));
        },
        None => {},
    }
    match &project.instruction_summary {
        Some(summary) => {
            let label = project_instruction_label(summary);
            spans.push(span(concat(" · ", label.as_str()), style_fg(Tone::DarkGray)));
        },
        None => {},
    }
    assert(line_view(spans@) =~= project_row_spec(
        *project,
        count as nat,
        match project.instruction_summary {
            Some(s) => instruction_label_spec(views(s.source_paths@)),
            None => Seq::empty(),
        },
    ));
    spans
}

/// The metadata of an archived session: its project, branch and compacted
/// worktree path.
pub open spec fn archived_metadata_parts(project_label: Option<Seq<char>>, s: SessionInfo) -> Seq<Seq<char>> {
    let p1: Seq<Seq<char>> = match project_label {
        Some(l) => seq![l],
        None => Seq::empty(),
    };
    let p2 = match s.branch {
        Some(b) => if b@.len() > 0 { p1.push("branch "@ + b@) } else { p1 },
        None => p1,
    };
    match s.worktree_path {
        Some(w) => if w@.len() > 0 { p2.push(compact_path_spec(w@)) } else { p2 },
        None => p2,
    }
}

/// The name shown for a session's project in the archive manager.
pub open spec fn archive_project_label_spec(projects: Seq<ProjectInfo>, s: SessionInfo) -> Option<Seq<char>> {
    match s.project_id {
        None => None,
        Some(pid) => Some(match find_project(projects, pid.value@) {
            Some(p) => p.display_name@,
            None => pid.value@,
        }),
    }
}

/// The spans of an archived session in the archive manager.
pub open spec fn archived_row_spec(s: SessionInfo, projects: Seq<ProjectInfo>) -> Seq<SpanView> {
    let base = seq![
        SpanView { text: "○ "@, style: fg(Tone::DarkGray) },
        SpanView { text: s.title@, style: plain() },
        SpanView { text: " ["@ + s.model_profile@ + "]"@, style: SpanStyle { fg: None, bold: false, dim: true } },
    ];
    let parts = archived_metadata_parts(archive_project_label_spec(projects, s), s);
    if parts.len() > 0 {
        base.push(SpanView { text: " · "@ + join_seq(parts, " · "@), style: fg(Tone::DarkGray) })
    } else {
        base
    }
}

/// The spans of an archived session in the archive manager.
pub fn archived_session_row_line(session: &SessionInfo, projects: &[ProjectInfo]) -> (r: Vec<StyledSpan>)
    ensures
        line_view(r@) == archived_row_spec(*session, projects@),
{
    let mut spans: Vec<StyledSpan> = Vec::new();
    spans.push(span(String::from_str("○ "), style_fg(Tone::DarkGray)));
    spans.push(span(session.title.clone(), style_plain()));
    spans.push(span(concat(concat(" [", session.model_profile.as_str()).as_str(), "]"), style_dim()));
    let mut parts: Vec<String> = Vec::new();
    match archive_project_label(projects, session) {
        Some(l) => parts.push(l),
        None => {},
    }
    match &session.branch {
        Some(b) => if b.as_str().unicode_len() > 0 {
            parts.push(concat("branch ", b.as_str()));
        },
        None => {},
    }
    match &session.worktree_path {
        Some(w) => if w.as_str().unicode_len() > 0 {
            parts.push(compact_worktree_path(w.as_str()));
        },
        None => {},
    }
    assert(views(parts@) =~= archived_metadata_parts(archive_project_label_spec(projects@, *session), *session));
    if parts.len() > 0 {
        let joined = join(parts.as_slice(), " · ");
        spans.push(span(concat(" · ", joined.as_str()), style_fg(Tone::DarkGray)));
    }
    assert(line_view(spans@) =~= archived_row_spec(*session, projects@));
    spans
}

/// The spans of a session row: indent when nested, pin and state icon,
/// title, model profile and archive marker, metadata, and the error text.
pub open spec fn session_row_spec(s: SessionInfo, nested: bool, icon: Seq<char>, tone: Tone, metadata: Option<Seq<char>>) -> Seq<SpanView> {
    let base = seq![
        SpanView { text: if nested { "  "@ } else { ""@ }, style: plain() },
        SpanView { text: (if s.pinned { "📌 "@ } else { ""@ }) + icon + " "@, style: fg(tone) },
        SpanView { text: s.title@, style: plain() },
        SpanView {
            text: " ["@ + s.model_profile@ + "]"@ + if s.archived { " [archived]"@ } else { ""@ },
            style: SpanStyle { fg: None, bold: false, dim: true },
        },
    ];
    let with_meta = match metadata {
        Some(m) => base.push(SpanView { text: " "@ + m, style: fg(Tone::DarkGray) }),
        None => base,
    };
    match s.state {
        SessionState::Error(e) => with_meta.push(SpanView { text: " "@ + e@, style: fg(Tone::Red) }),
        _ => with_meta,
    }
}

/// The spans of a session row.
pub fn session_row_line(session: &SessionInfo, nested: bool) -> (r: Vec<StyledSpan>)
    ensures
        ({
            let (icon, tone) = match session.state {
                SessionState::Active => ("●"@, Tone::Green),
                SessionState::Idle => ("○"@, Tone::DarkGray),
                SessionState::Error(_) => ("✕"@, Tone::Red),
                SessionState::AwaitingPermission => ("⚠"@, Tone::Yellow),
            };
            let parts = metadata_parts(*session);
            line_view(r@) == session_row_spec(
                *session,
                nested,
                icon,
                tone,
                if parts.len() > 0 { Some(join_seq(parts, " · "@)) } else { None },
            )
        }),
{
    let (icon, tone) = session_state_icon(&session.state);
    let pin = if session.pinned { "📌 " } else { "" };
    let archived = if session.archived { " [archived]" } else { "" };
    let prefix = if nested { "  " } else { "" };
    let mut spans: Vec<StyledSpan> = Vec::new();
    spans.push(span(String::from_str(prefix), style_plain()));
    spans.push(span(concat(concat(pin, icon).as_str(), " "), style_fg(tone)));
    spans.push(span(session.title.clone(), style_plain()));
    let profile = concat(concat(" [", session.model_profile.as_str()).as_str(), "]");
    spans.push(span(concat(profile.as_str(), archived), style_dim()));
    match session_metadata_label(session) {
        Some(m) => spans.push(span(concat(" ", m.as_str()), style_fg(Tone::DarkGray))),
        None => {},
    }
    match &session.state {
        SessionState::Error(e) => spans.push(span(concat(" ", e.as_str()), style_fg(Tone::Red))),
        _ => {},
    }
    let ghost (gi, gt) = match session.state {
        SessionState::Active => ("●"@, Tone::Green),
        SessionState::Idle => ("○"@, Tone::DarkGray),
        SessionState::Error(_) => ("✕"@, Tone::Red),
        SessionState::AwaitingPermission => ("⚠"@, Tone::Yellow),
    };
    let ghost parts = metadata_parts(*session);
    assert(line_view(spans@) =~= session_row_spec(
        *session,
        nested,
        gi,
        gt,
        if parts.len() > 0 { Some(join_seq(parts, " · "@)) } else { None },
    ));
    spans
}

/// The header of the action menu: the kind of the selected row and its
/// name, or `None` without a selection.
pub open spec fn action_header_spec(t: Option<Target>) -> Seq<SpanView> {
    let (label, title) = match t {
        Some(Target::Project(p)) => ("Project: "@, p.display_name@),
        Some(Target::Session(s)) => ("Session: "@, s.title@),
        None => ("Selection: "@, "None"@),
    };
    seq![
        SpanView { text: label, style: fg(Tone::DarkGray) },
        SpanView { text: title, style: SpanStyle { fg: None, bold: true, dim: false } },
    ]
}

/// The header of the action menu.
pub fn action_header_line(panel: &SessionsPanel, projects: &[ProjectInfo], sessions: &[SessionInfo]) -> (r: Vec<StyledSpan>)
    ensures
        line_view(r@) == action_header_spec(target_spec(panel.state.index, projects@, sessions@)),
{
    let (label, title) = match panel.selected_target(projects, sessions) {
        Some(SelectedRow::Project(i)) => ("Project: ", projects[i].display_name.clone()),
        Some(SelectedRow::Session(i)) => ("Session: ", sessions[i].title.clone()),
        None => ("Selection: ", copy_str("None")),
    };
    let mut spans: Vec<StyledSpan> = Vec::new();
    spans.push(span(copy_str(label), style_fg(Tone::DarkGray)));
    spans.push(span(title, style_bold()));
    assert(line_view(spans@) =~= action_header_spec(target_spec(panel.state.index, projects@, sessions@)));
    spans
}

/// A row of the action menu: the key in brackets, then the label.
pub open spec fn action_row_spec(action: SessionAction) -> Seq<SpanView> {
    seq![
        SpanView { text: "["@ + action_key_spec(action) + "] "@, style: fg(Tone::Yellow) },
        SpanView { text: action_label_spec(action), style: plain() },
    ]
}

/// A row of the action menu.
pub fn action_row_line(action: SessionAction) -> (r: Vec<StyledSpan>)
    ensures
        line_view(r@) == action_row_spec(action),
{
    let mut spans: Vec<StyledSpan> = Vec::new();
    spans.push(span(concat(concat("[", action_key(action)).as_str(), "] "), style_fg(Tone::Yellow)));
    spans.push(span(copy_str(action_label(action)), style_plain()));
    assert(line_view(spans@) =~= action_row_spec(action));
    spans
}

/// The text being typed in the action menu, with its prompt and a cursor:
/// a session title, a project name, or a branch name; nothing in the menu.
pub open spec fn action_input_spec(mode: SessionActionMode) -> Option<Seq<SpanView>> {
    let (prompt, text) = match mode {
        SessionActionMode::Menu => (Seq::<char>::empty(), Seq::<char>::empty()),
        SessionActionMode::RenameSession { title, .. } => ("Title: "@, title@),
        SessionActionMode::RenameProject { display_name, .. } => ("Project: "@, display_name@),
        SessionActionMode::Worktree { branch_name, .. } => ("Branch: "@, branch_name@),
    };
    if mode is Menu {
        None
    } else {
        Some(seq![
            SpanView { text: prompt, style: fg(Tone::Yellow) },
            SpanView { text, style: plain() },
            SpanView { text: "▌"@, style: fg(Tone::Cyan) },
        ])
    }
}

/// The text being typed in the action menu.
pub fn action_input_line(mode: &SessionActionMode) -> (r: Option<Vec<StyledSpan>>)
    ensures
        r is None <==> action_input_spec(*mode) is None,
        r matches Some(l) ==> Some(line_view(l@)) == action_input_spec(*mode),
{
    let (prompt, text) = match mode {
        SessionActionMode::Menu => return None,
        SessionActionMode::RenameSession { title, .. } => ("Title: ", title.clone()),
        SessionActionMode::RenameProject { display_name, .. } => ("Project: ", display_name.clone()),
        SessionActionMode::Worktree { branch_name, .. } => ("Branch: ", branch_name.clone()),
    };
    let mut spans: Vec<StyledSpan> = Vec::new();
    spans.push(span(copy_str(prompt), style_fg(Tone::Yellow)));
    spans.push(span(text, style_plain()));
    spans.push(span(copy_str("▌"), style_fg(Tone::Cyan)));
    assert(Some(line_view(spans@)) =~~= action_input_spec(*mode));
    Some(spans)
}

/// The highlighted menu row: the cursor, pulled back onto the last action.
pub fn action_cursor_row(cursor: usize, count: usize) -> (r: usize)
    requires
        count > 0,
    ensures
        r == if cursor < count { cursor } else { (count - 1) as usize },
{
    if cursor < count { cursor } else { count - 1 }
}

/// The counts line of the archive manager: archived sessions in total and
/// how many of them belong to a project.
pub open spec fn archive_stats_spec(stats: ArchiveStats) -> Seq<SpanView> {
    seq![
        SpanView { text: "Total: "@, style: fg(Tone::DarkGray) },
        SpanView { text: decimal_seq(stats.total as nat), style: SpanStyle { fg: None, bold: true, dim: false } },
        SpanView { text: "  Projects: "@, style: fg(Tone::DarkGray) },
        SpanView { text: decimal_seq(stats.projects as nat), style: SpanStyle { fg: None, bold: true, dim: false } },
    ]
}

/// The counts line of the archive manager.
pub fn archive_stats_line(stats: ArchiveStats) -> (r: Vec<StyledSpan>)
    ensures
        line_view(r@) == archive_stats_spec(stats),
{
    let mut spans: Vec<StyledSpan> = Vec::new();
    spans.push(span(copy_str("Total: "), style_fg(Tone::DarkGray)));
    spans.push(span(u64_to_string(stats.total as u64), style_bold()));
    spans.push(span(copy_str("  Projects: "), style_fg(Tone::DarkGray)));
    spans.push(span(u64_to_string(stats.projects as u64), style_bold()));
    assert(line_view(spans@) =~= archive_stats_spec(stats));
    spans
}

/// The title of the sessions list, with the number of archived sessions
/// when there are any.
pub open spec fn list_title_spec(stats: ArchiveStats) -> Seq<char> {
    if stats.total == 0 {
        " Projects / Sessions "@
    } else {
        " Projects / Sessions · [A] Archive "@ + decimal_seq(stats.total as nat) + " "@
    }
}

/// The title of the sessions list.
pub fn sessions_list_title(stats: ArchiveStats) -> (r: String)
    ensures
        r@ == list_title_spec(stats),
{
    if stats.total == 0 {
        copy_str(" Projects / Sessions ")
    } else {
        let head = concat(" Projects / Sessions · [A] Archive ", u64_to_string(stats.total as u64).as_str());
        concat(head.as_str(), " ")
    }
}

} // verus!
