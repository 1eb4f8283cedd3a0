//! Skills overlay: the skills with an active marker, activation and
//! deactivation for the current session, and a view of a skill's body.

use vstd::prelude::*;

use crate::commands::Command;
use crate::context::EventContext;
use crate::effects::CrossPanelEffect;
use crate::ids::{SessionId, WorkspaceId};
use crate::keys::{KeyCode, KeyInput};
use crate::mcp_overlay::keys::is_either;
use crate::mcp_overlay::state::pick;
use crate::mcp_overlay::view::bold;
use crate::selection::{down_spec, step_down, step_up, up_spec, ListSelection};
use crate::styled::{fg, line_view, plain, span, style_bold, style_fg, style_plain, SpanView, StyledSpan, Tone};
use crate::text::{chars_of, concat, copy_str, str_eq, string_from_chars};

verus! {

/// A skill as the overlay shows it.
#[derive(Debug, PartialEq, Eq)]
pub struct SkillEntry {
    pub id: String,
    pub name: String,
    pub description: String,
    pub source: String,
    pub activation_mode: String,
    pub active: bool,
}

/// The body of a skill, shown in place of the list.
#[derive(Debug, PartialEq, Eq)]
pub struct BodyView {
    pub skill_id: String,
    pub body: String,
}

/// The skills overlay.
pub struct SkillsOverlay {
    pub focused: bool,
    pub visible: bool,
    pub skills: Vec<SkillEntry>,
    pub list_state: ListSelection,
    pub body: Option<BodyView>,
}

/// The position of the first skill, from position `i` on, with a given id.
pub open spec fn skill_position_from(skills: Seq<SkillEntry>, id: Seq<char>, i: int) -> Option<int>
    decreases skills.len() - i,
{
    if i < 0 || i >= skills.len() {
        None
    } else if skills[i].id@ == id {
        Some(i)
    } else {
        skill_position_from(skills, id, i + 1)
    }
}

/// The selection after new skills arrive: the skill highlighted before
/// when it is still listed, else the first one; nothing for no skills.
pub open spec fn reselect(old_skills: Seq<SkillEntry>, sel: Option<usize>, skills: Seq<SkillEntry>) -> Option<usize> {
    if skills.len() == 0 {
        None
    } else {
        match pick(old_skills, sel) {
            Some(prev) => match skill_position_from(skills, prev.id@, 0) {
                Some(i) => Some(i as usize),
                None => Some(0usize),
            },
            None => Some(0usize),
        }
    }
}

/// `n` is `o` hidden with its skills, selection and body dropped.
pub open spec fn dismissed(o: SkillsOverlay, n: SkillsOverlay) -> bool {
    &&& n == SkillsOverlay { visible: false, skills: n.skills, list_state: ListSelection { index: None }, body: None, ..o }
    &&& n.skills@.len() == 0
}

/// The overlay after one step down or up (`down`), stopping at the ends.
pub open spec fn step_spec(o: SkillsOverlay, down: bool) -> SkillsOverlay {
    let len = o.skills@.len();
    if len == 0 {
        o
    } else {
        SkillsOverlay {
            list_state: ListSelection {
                index: if down { down_spec(len, o.list_state.index) } else { up_spec(len, o.list_state.index) },
            },
            ..o
        }
    }
}

/// What a key does while the list is shown: j/k and the arrows move, Esc
/// closes, Enter asks for the highlighted skill's body, `a` activates an
/// inactive skill and `d` deactivates an active one in the current session.
pub open spec fn list_key_ok(
    o: SkillsOverlay,
    n: SkillsOverlay,
    workspace: WorkspaceId,
    session: Option<SessionId>,
    code: KeyCode,
    effects: Seq<CrossPanelEffect>,
    cmds: Seq<Command>,
) -> bool {
    let quiet = effects.len() == 0 && cmds.len() == 0;
    let sel = pick(o.skills@, o.list_state.index);
    if code == KeyCode::Char('j') || code == KeyCode::Down {
        quiet && n == step_spec(o, true)
    } else if code == KeyCode::Char('k') || code == KeyCode::Up {
        quiet && n == step_spec(o, false)
    } else if code == KeyCode::Esc {
        cmds.len() == 0 && effects == seq![CrossPanelEffect::DismissSkillsOverlay] && dismissed(o, n)
    } else if code == KeyCode::Enter {
        effects.len() == 0 && n == o && cmds == match sel {
            Some(e) => seq![Command::ShowSkill { skill_id: e.id }],
            None => Seq::empty(),
        }
    } else if is_either(code, 'a', 'A') {
        effects.len() == 0 && n == o && cmds == match (sel, session) {
            (Some(e), Some(sid)) => if !e.active {
                seq![Command::ActivateSkill { workspace_id: workspace, session_id: sid, skill_id: e.id }]
            } else {
                Seq::empty()
            },
            _ => Seq::empty(),
        }
    } else if is_either(code, 'd', 'D') {
        effects.len() == 0 && n == o && cmds == match (sel, session) {
            (Some(e), Some(sid)) => if e.active {
                seq![Command::DeactivateSkill { workspace_id: workspace, session_id: sid, skill_id: e.id }]
            } else {
                Seq::empty()
            },
            _ => Seq::empty(),
        }
    } else {
        quiet && n == o
    }
}

/// Position of the first skill with the id.
fn find_skill(skills: &Vec<SkillEntry>, id: &str) -> (r: Option<usize>)
    ensures
        r == match skill_position_from(skills@, id@, 0) { Some(k) => Some(k as usize), None => None::<usize> },
{
    let mut i: usize = 0;
    while i < skills.len()
        invariant
            i <= skills.len(),
            skill_position_from(skills@, id@, 0) == skill_position_from(skills@, id@, i as int),
        decreases skills.len() - i,
    {
        if str_eq(skills[i].id.as_str(), id) {
            return Some(i);
        }
        i = i + 1;
    }
    None
}

impl SkillsOverlay {
    /// A hidden, empty overlay.
    pub fn new() -> (o: SkillsOverlay)
        ensures
            !o.visible,
            !o.focused,
            o.skills@.len() == 0,
            o.list_state.index is None,
            o.body is None,
    {
        SkillsOverlay { focused: false, visible: false, skills: Vec::new(), list_state: ListSelection::new(), body: None }
    }

    /// Whether the overlay is shown.
    pub fn is_visible(&self) -> (b: bool)
        ensures
            b == self.visible,
    {
        self.visible
    }

    /// Shows new skills, keeping the highlighted skill when it is still
    /// listed.
    pub fn show(&mut self, skills: Vec<SkillEntry>)
        ensures
            *final(self) == (SkillsOverlay {
                skills,
                list_state: ListSelection { index: reselect(old(self).skills@, old(self).list_state.index, skills@) },
                visible: true,
                ..*old(self)
            }),
    {
        let select = if skills.len() == 0 {
            None
        } else {
            match self.selected() {
                Some(prev) => match find_skill(&skills, prev.id.as_str()) {
                    Some(i) => Some(i),
                    None => Some(0),
                },
                None => Some(0),
            }
        };
        self.skills = skills;
        self.list_state.select(select);
        self.visible = true;
    }

    /// Hides the overlay and drops what it shows.
    pub fn dismiss(&mut self)
        ensures
            dismissed(*old(self), *final(self)),
    {
        self.visible = false;
        self.skills = Vec::new();
        self.list_state.select(None);
        self.body = None;
    }

    /// The skills.
    pub fn skills(&self) -> (r: &[SkillEntry])
        ensures
            r@ == self.skills@,
    {
        self.skills.as_slice()
    }

    /// Position of the highlighted skill.
    pub fn selected_index(&self) -> (r: Option<usize>)
        ensures
            r == self.list_state.index,
    {
        self.list_state.selected()
    }

    /// The skill whose body is shown.
    pub fn body_skill_id(&self) -> (r: Option<&str>)
        ensures
            r is None <==> self.body is None,
            r matches Some(s) ==> s@ == self.body.unwrap().skill_id@,
    {
        match &self.body {
            Some(b) => Some(b.skill_id.as_str()),
            None => None,
        }
    }

    /// The highlighted skill.
    pub fn selected(&self) -> (r: Option<&SkillEntry>)
        ensures
            r == match pick(self.skills@, self.list_state.index) { Some(e) => Some(&e), None => None },
    {
        match self.list_state.selected() {
            Some(i) => if i < self.skills.len() { Some(&self.skills[i]) } else { None },
            None => None,
        }
    }

    /// One step down, stopping at the last skill.
    pub fn move_down(&mut self)
        ensures
            *final(self) == step_spec(*old(self), true),
    {
        if self.skills.len() == 0 {
            return;
        }
        let next = step_down(self.skills.len(), self.list_state.selected());
        self.list_state.select(next);
    }

    /// One step up, stopping at the first skill.
    pub fn move_up(&mut self)
        ensures
            *final(self) == step_spec(*old(self), false),
    {
        if self.skills.len() == 0 {
            return;
        }
        let next = step_up(self.skills.len(), self.list_state.selected());
        self.list_state.select(next);
    }

    /// A key press. A hidden overlay ignores it; while a body is shown only
    /// Esc counts, and it returns to the list.
    pub fn handle_event(&mut self, ctx: &EventContext, key: KeyInput) -> (out: (Vec<CrossPanelEffect>, Vec<Command>))
        ensures
            !old(self).visible ==> *final(self) == *old(self) && out.0@.len() == 0 && out.1@.len() == 0,
            old(self).visible && old(self).body is Some ==> out.0@.len() == 0 && out.1@.len() == 0
                && *final(self) == if key.code == KeyCode::Esc { SkillsOverlay { body: None, ..*old(self) } } else { *old(self) },
            old(self).visible && old(self).body is None ==> list_key_ok(
                *old(self),
                *final(self),
                *ctx.workspace_id,
                *ctx.current_session_id,
                key.code,
                out.0@,
                out.1@,
            ),
    {
        if !self.visible {
            return (Vec::new(), Vec::new());
        }
        if self.body.is_some() {
            if key.code == KeyCode::Esc {
                self.body = None;
            }
            return (Vec::new(), Vec::new());
        }
        let code = key.code;
        if code == KeyCode::Char('j') || code == KeyCode::Down {
            self.move_down();
        } else if code == KeyCode::Char('k') || code == KeyCode::Up {
            self.move_up();
        } else if code == KeyCode::Esc {
            self.dismiss();
            let effects = vec![CrossPanelEffect::DismissSkillsOverlay];
            assert(effects@ =~= seq![CrossPanelEffect::DismissSkillsOverlay]);
            return (effects, Vec::new());
        } else if code == KeyCode::Enter {
            let cmds: Vec<Command> = match self.selected() {
                Some(e) => {
                    let c = Command::ShowSkill { skill_id: e.id.clone() };
                    let ghost g = c;
                    let v = vec![c];
                    assert(v@ =~= seq![g]);
                    v
                },
                None => Vec::new(),
            };
            return (Vec::new(), cmds);
        } else if code == KeyCode::Char('a') || code == KeyCode::Char('A') || code == KeyCode::Char('d')
            || code == KeyCode::Char('D') {
            let activate = code == KeyCode::Char('a') || code == KeyCode::Char('A');
            let cmds: Vec<Command> = match (self.selected(), ctx.current_session_id) {
                (Some(e), Some(sid)) => {
                    if activate && !e.active {
                        let c = Command::ActivateSkill {
                            workspace_id: ctx.workspace_id.clone(),
                            session_id: sid.clone(),
                            skill_id: e.id.clone(),
                        };
                        let ghost g = c;
                        let v = vec![c];
                        assert(v@ =~= seq![g]);
                        v
                    } else if !activate && e.active {
                        let c = Command::DeactivateSkill {
                            workspace_id: ctx.workspace_id.clone(),
                            session_id: sid.clone(),
                            skill_id: e.id.clone(),
                        };
                        let ghost g = c;
                        let v = vec![c];
                        assert(v@ =~= seq![g]);
                        v
                    } else {
                        Vec::new()
                    }
                },
                _ => Vec::new(),
            };
            return (Vec::new(), cmds);
        }
        (Vec::new(), Vec::new())
    }

    /// An effect from another panel: new skills open the overlay, a
    /// dismissal closes it, and a skill's body is shown while it is open.
    pub fn handle_effect(&mut self, effect: CrossPanelEffect)
        ensures
            match effect {
                CrossPanelEffect::ShowSkillsOverlay(skills) => *final(self) == (SkillsOverlay {
                    skills,
                    list_state: ListSelection { index: reselect(old(self).skills@, old(self).list_state.index, skills@) },
                    visible: true,
                    ..*old(self)
                }),
                CrossPanelEffect::DismissSkillsOverlay => dismissed(*old(self), *final(self)),
                CrossPanelEffect::ShowSkillBody { skill_id, body } => *final(self) == if old(self).visible {
                    SkillsOverlay { body: Some(BodyView { skill_id, body }), ..*old(self) }
                } else {
                    *old(self)
                },
                _ => *final(self) == *old(self),
            },
    {
        match effect {
            CrossPanelEffect::ShowSkillsOverlay(skills) => self.show(skills),
            CrossPanelEffect::DismissSkillsOverlay => self.dismiss(),
            CrossPanelEffect::ShowSkillBody { skill_id, body } => {
                if self.visible {
                    self.body = Some(BodyView { skill_id, body });
                }
            },
            _ => {},
        }
    }

    /// Whether the overlay has keyboard focus.
    pub fn focused(&self) -> (b: bool)
        ensures
            b == self.focused,
    {
        self.focused
    }

    /// Gives or takes keyboard focus.
    pub fn set_focused(&mut self, focused: bool)
        ensures
            *final(self) == (SkillsOverlay { focused, ..*old(self) }),
    {
        self.focused = focused;
    }
}

/// The spans of a skill row: active marker, id, description, source and
/// activation mode.
pub open spec fn skill_row_spec(s: SkillEntry) -> Seq<SpanView> {
    seq![
        SpanView {
            text: if s.active { "● active "@ } else { "○        "@ },
            style: fg(if s.active { Tone::Green } else { Tone::DarkGray }),
        },
        SpanView { text: s.id@, style: bold() },
        SpanView { text: "  "@, style: plain() },
        SpanView { text: s.description@, style: fg(Tone::Gray) },
        SpanView { text: "  ["@ + s.source@ + " / "@ + s.activation_mode@ + "]"@, style: fg(Tone::DarkGray) },
    ]
}

/// The spans of a skill row.
pub fn skill_row_line(s: &SkillEntry) -> (r: Vec<StyledSpan>)
    ensures
        line_view(r@) == skill_row_spec(*s),
{
    let tail = concat(
        concat(concat(concat("  [", s.source.as_str()).as_str(), " / ").as_str(), s.activation_mode.as_str()).as_str(),
        "]",
    );
    let mut spans: Vec<StyledSpan> = Vec::new();
    spans.push(span(copy_str(if s.active { "● active " } else { "○        " }), style_fg(if s.active { Tone::Green } else { Tone::DarkGray })));
    spans.push(span(s.id.clone(), style_bold()));
    spans.push(span(copy_str("  "), style_plain()));
    spans.push(span(s.description.clone(), style_fg(Tone::Gray)));
    spans.push(span(tail, style_fg(Tone::DarkGray)));
    assert(line_view(spans@) =~= skill_row_spec(*s));
    spans
}

/// A line without the carriage return that ends it.
pub open spec fn strip_cr(l: Seq<char>) -> Seq<char> {
    if l.len() > 0 && l.last() == '\r' { l.drop_last() } else { l }
}

/// The lines of a text, as `str::lines` gives them: split at each `\n`, a
/// `\r` just before a `\n` dropped, no line after a final `\n`.
pub open spec fn lines_spec(s: Seq<char>) -> Seq<Seq<char>>
    decreases s.len(),
{
    if s.len() == 0 {
        Seq::empty()
    } else {
        lines_acc(s, 0, 0)
    }
}

/// The lines of `s[start..]`, the current line having begun at `start`
/// and `i` characters of it seen.
pub open spec fn lines_acc(s: Seq<char>, start: int, i: int) -> Seq<Seq<char>>
    decreases s.len() - start - i, s.len() - i,
{
    if start < 0 || i < 0 || start + i > s.len() {
        Seq::empty()
    } else if start + i == s.len() {
        if i == 0 { Seq::empty() } else { seq![s.subrange(start, start + i)] }
    } else if s[start + i] == '\n' {
        seq![strip_cr(s.subrange(start, start + i))] + lines_acc(s, start + i + 1, 0)
    } else {
        lines_acc(s, start, i + 1)
    }
}

/// The lines of a skill body.
pub fn body_lines(body: &str) -> (r: Vec<String>)
    ensures
        r@.len() == lines_spec(body@).len(),
        forall|k: int| 0 <= k < r@.len() ==> #[trigger] r@[k]@ == lines_spec(body@)[k],
{
    let cs = chars_of(body);
    let n = cs.len();
    let mut out: Vec<String> = Vec::new();
    let mut start: usize = 0;
    let mut i: usize = 0;
    let ghost done: Seq<Seq<char>> = Seq::empty();
    while start + i < n
        invariant
            cs@ == body@,
            n == cs@.len(),
            start + i <= n,
            out@.len() == done.len(),
            forall|k: int| 0 <= k < out@.len() ==> #[trigger] out@[k]@ == done[k],
            done + lines_acc(body@, start as int, i as int) == lines_acc(body@, 0, 0),
        decreases n - start - i, n - i,
    {
        if cs[start + i] == '\n' {
            let line_chars = vstd::slice::slice_subrange(cs.as_slice(), start, start + i);
            let mut line = string_from_chars(line_chars);
            let ghost raw = line@;
            if i > 0 && cs[start + i - 1] == '\r' {
                crate::text::pop_char(&mut line);
            }
            proof {
                assert(raw == body@.subrange(start as int, start + i));
                assert(line@ == strip_cr(raw));
                let rest = lines_acc(body@, start + i + 1, 0);
                assert(lines_acc(body@, start as int, i as int) == seq![strip_cr(raw)] + rest);
                assert(done + (seq![strip_cr(raw)] + rest) =~= done.push(strip_cr(raw)) + rest);
                done = done.push(strip_cr(raw));
            }
            out.push(line);
            start = start + i + 1;
            i = 0;
        } else {
            i = i + 1;
        }
    }
    if i > 0 {
        let line_chars = vstd::slice::slice_subrange(cs.as_slice(), start, start + i);
        let line = string_from_chars(line_chars);
        proof {
            assert(lines_acc(body@, start as int, i as int) == seq![body@.subrange(start as int, start + i)]);
            done = done.push(line@);
        }
        out.push(line);
    }
    proof {
        if n > 0 {
            assert(lines_spec(body@) == lines_acc(body@, 0, 0));
        }
        assert(done =~= lines_spec(body@));
    }
    out
}

/// Once new skills arrive, the highlighted skill lies inside the list,
/// and it is the skill highlighted before whenever that one is still
/// listed.
pub proof fn law_reselect_keeps_skill(old_skills: Seq<SkillEntry>, sel: Option<usize>, skills: Seq<SkillEntry>, k: int)
    requires
        skills.len() <= usize::MAX,
        0 <= k < skills.len(),
        pick(old_skills, sel) matches Some(prev) && skills[k].id@ == prev.id@,
    ensures
        reselect(old_skills, sel, skills) matches Some(i) && i < skills.len()
            && skills[i as int].id@ == pick(old_skills, sel).unwrap().id@,
{
    lemma_skill_position(skills, pick(old_skills, sel).unwrap().id@, 0, k);
}

/// A skill with the id at position `k >= i` is found, and what is found
/// has the id.
proof fn lemma_skill_position(skills: Seq<SkillEntry>, id: Seq<char>, i: int, k: int)
    requires
        0 <= i <= k < skills.len(),
        skills[k].id@ == id,
    ensures
        skill_position_from(skills, id, i) matches Some(j) && i <= j <= k && skills[j].id@ == id,
    decreases k - i,
{
    if skills[i].id@ != id {
        lemma_skill_position(skills, id, i + 1, k);
    }
}

impl Default for SkillsOverlay {
    /// The same as [`SkillsOverlay::new`].
    fn default() -> (o: Self)
        ensures
            !o.visible,
            !o.focused,
            o.skills@.len() == 0,
            o.list_state.index is None,
            o.body is None,
    {
        SkillsOverlay::new()
    }
}

} // verus!
