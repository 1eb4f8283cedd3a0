//! Monitor overlay: the active background monitors, which can be stopped.

use vstd::prelude::*;
use vstd::utf8::{decode_utf8, encode_utf8, is_char_boundary};

use crate::commands::Command;
use crate::context::EventContext;
use crate::effects::CrossPanelEffect;
use crate::keys::{KeyCode, KeyInput};
use crate::mcp_overlay::keys::is_either;
use crate::mcp_overlay::state::pick;
use crate::mcp_overlay::view::bold;
use crate::selection::{clamp_selection, clamp_spec, down_spec, step_down, step_up, up_spec, ListSelection};
use crate::styled::{fg, line_view, plain, span, style_fg, style_plain, SpanStyle, SpanView, StyledSpan, Tone};
use crate::text::{concat, copy_str, decimal_seq, u64_to_string};

verus! {

/// An active monitor.
#[derive(Debug, PartialEq, Eq)]
pub struct MonitorEntry {
    pub monitor_id: String,
    pub description: String,
    pub command: String,
    pub persistent: bool,
    pub timeout_ms: u64,
}

/// What the overlay shows when it opens.
#[derive(Debug, PartialEq, Eq)]
pub struct MonitorOverlaySnapshot {
    pub monitors: Vec<MonitorEntry>,
}

/// The monitor overlay.
pub struct MonitorOverlay {
    pub visible: bool,
    pub focused: bool,
    pub monitors: Vec<MonitorEntry>,
    pub list_state: ListSelection,
}

/// `n` is `o` with the highlighted row kept inside the list.
pub open spec fn ensure_spec(o: MonitorOverlay) -> MonitorOverlay {
    MonitorOverlay { list_state: ListSelection { index: clamp_spec(o.monitors@.len(), o.list_state.index) }, ..o }
}

/// The overlay after one step down or up (`down`), stopping at the ends.
pub open spec fn step_spec(o: MonitorOverlay, down: bool) -> MonitorOverlay {
    let len = o.monitors@.len();
    if len == 0 {
        o
    } else {
        MonitorOverlay {
            list_state: ListSelection {
                index: if down { down_spec(len, o.list_state.index) } else { up_spec(len, o.list_state.index) },
            },
            ..o
        }
    }
}

/// `n` is `o` hidden with its monitors dropped.
pub open spec fn dismissed(o: MonitorOverlay, n: MonitorOverlay) -> bool {
    &&& n == MonitorOverlay { visible: false, monitors: n.monitors, list_state: ListSelection { index: None }, ..o }
    &&& n.monitors@.len() == 0
}

/// What a key does to a visible overlay: j/k and the arrows move, `x`
/// stops the highlighted monitor, Esc closes, `r` reloads.
pub open spec fn key_ok(o: MonitorOverlay, n: MonitorOverlay, code: KeyCode, effects: Seq<CrossPanelEffect>, cmds: Seq<Command>) -> bool {
    let quiet = effects.len() == 0 && cmds.len() == 0;
    if code == KeyCode::Char('j') || code == KeyCode::Down {
        quiet && n == step_spec(o, true)
    } else if code == KeyCode::Char('k') || code == KeyCode::Up {
        quiet && n == step_spec(o, false)
    } else if is_either(code, 'x', 'X') || code == KeyCode::Delete {
        effects.len() == 0 && n == o && cmds == match pick(o.monitors@, o.list_state.index) {
            Some(m) => seq![Command::MonitorStop { monitor_id: m.monitor_id }],
            None => Seq::empty(),
        }
    } else if code == KeyCode::Esc {
        cmds.len() == 0 && effects == seq![CrossPanelEffect::DismissMonitorOverlay] && dismissed(o, n)
    } else if is_either(code, 'r', 'R') {
        effects.len() == 0 && n == o && cmds == seq![Command::OpenMonitorOverlay]
    } else {
        quiet && n == o
    }
}

impl MonitorOverlay {
    /// A hidden, empty overlay.
    pub fn new() -> (o: MonitorOverlay)
        ensures
            !o.visible,
            !o.focused,
            o.monitors@.len() == 0,
            o.list_state.index is None,
    {
        MonitorOverlay { visible: false, focused: false, monitors: Vec::new(), list_state: ListSelection::new() }
    }

    /// Whether the overlay is shown.
    pub fn is_visible(&self) -> (b: bool)
        ensures
            b == self.visible,
    {
        self.visible
    }

    /// Shows a snapshot, keeping the highlighted row inside the list.
    pub fn show(&mut self, snapshot: MonitorOverlaySnapshot)
        ensures
            *final(self) == ensure_spec(MonitorOverlay { monitors: snapshot.monitors, visible: true, ..*old(self) }),
    {
        self.monitors = snapshot.monitors;
        self.visible = true;
        self.ensure_selection();
    }

    /// Hides the overlay and drops its monitors.
    pub fn dismiss(&mut self)
        ensures
            dismissed(*old(self), *final(self)),
    {
        self.visible = false;
        self.monitors = Vec::new();
        self.list_state.select(None);
    }

    /// The monitors.
    pub fn monitors(&self) -> (r: &[MonitorEntry])
        ensures
            r@ == self.monitors@,
    {
        self.monitors.as_slice()
    }

    /// Position of the highlighted monitor.
    pub fn selected_index(&self) -> (r: Option<usize>)
        ensures
            r == self.list_state.index,
    {
        self.list_state.selected()
    }

    /// The highlighted monitor.
    pub fn selected_monitor(&self) -> (r: Option<&MonitorEntry>)
        ensures
            r == match pick(self.monitors@, self.list_state.index) { Some(m) => Some(&m), None => None },
    {
        match self.list_state.selected() {
            Some(i) => if i < self.monitors.len() { Some(&self.monitors[i]) } else { None },
            None => None,
        }
    }

    /// Keeps the highlighted row inside the list.
    pub fn ensure_selection(&mut self)
        ensures
            *final(self) == ensure_spec(*old(self)),
    {
        let s = clamp_selection(self.monitors.len(), self.list_state.selected());
        self.list_state.select(s);
    }

    /// One step down, stopping at the last row.
    pub fn move_down(&mut self)
        ensures
            *final(self) == step_spec(*old(self), true),
    {
        if self.monitors.len() == 0 {
            return;
        }
        let next = step_down(self.monitors.len(), self.list_state.selected());
        self.list_state.select(next);
    }

    /// One step up, stopping at the first row.
    pub fn move_up(&mut self)
        ensures
            *final(self) == step_spec(*old(self), false),
    {
        if self.monitors.len() == 0 {
            return;
        }
        let next = step_up(self.monitors.len(), self.list_state.selected());
        self.list_state.select(next);
    }

    /// A key press. A hidden overlay ignores it.
    pub fn handle_event(&mut self, ctx: &EventContext, key: KeyInput) -> (out: (Vec<CrossPanelEffect>, Vec<Command>))
        ensures
            !old(self).visible ==> *final(self) == *old(self) && out.0@.len() == 0 && out.1@.len() == 0,
            old(self).visible ==> key_ok(*old(self), *final(self), key.code, out.0@, out.1@),
    {
        if !self.visible {
            return (Vec::new(), Vec::new());
        }
        let code = key.code;
        if code == KeyCode::Char('j') || code == KeyCode::Down {
            self.move_down();
        } else if code == KeyCode::Char('k') || code == KeyCode::Up {
            self.move_up();
        } else if code == KeyCode::Char('x') || code == KeyCode::Char('X') || code == KeyCode::Delete {
            let cmds: Vec<Command> = match self.selected_monitor() {
                Some(m) => {
                    let c = Command::MonitorStop { monitor_id: m.monitor_id.clone() };
                    let ghost g = c;
                    let v = vec![c];
                    assert(v@ =~= seq![g]);
                    v
                },
                None => Vec::new(),
            };
            return (Vec::new(), cmds);
        } else if code == KeyCode::Esc {
            self.dismiss();
            let effects = vec![CrossPanelEffect::DismissMonitorOverlay];
            assert(effects@ =~= seq![CrossPanelEffect::DismissMonitorOverlay]);
            return (effects, Vec::new());
        } else if code == KeyCode::Char('r') || code == KeyCode::Char('R') {
            let cmds = vec![Command::OpenMonitorOverlay];
            assert(cmds@ =~= seq![Command::OpenMonitorOverlay]);
            return (Vec::new(), cmds);
        }
        (Vec::new(), Vec::new())
    }

    /// An effect from another panel.
    pub fn handle_effect(&mut self, effect: CrossPanelEffect)
        ensures
            match effect {
                CrossPanelEffect::ShowMonitorOverlay(s) => *final(self) == ensure_spec(
                    MonitorOverlay { monitors: s.monitors, visible: true, ..*old(self) },
                ),
                CrossPanelEffect::DismissMonitorOverlay => dismissed(*old(self), *final(self)),
                _ => *final(self) == *old(self),
            },
    {
        match effect {
            CrossPanelEffect::ShowMonitorOverlay(snapshot) => self.show(snapshot),
            CrossPanelEffect::DismissMonitorOverlay => self.dismiss(),
            _ => {},
        }
    }

    /// Whether the overlay has keyboard focus.
    pub fn focused(&self) -> (b: bool)
        ensures
            b == self.focused,
    {
        self.focused
    }

    /// Gives or takes keyboard focus.
    pub fn set_focused(&mut self, focused: bool)
        ensures
            *final(self) == (MonitorOverlay { focused, ..*old(self) }),
    {
        self.focused = focused;
    }
}

/// A timeout in whole minutes from a minute up, in whole seconds below.
pub open spec fn timeout_spec(ms: u64) -> Seq<char> {
    if ms >= 60_000 {
        decimal_seq((ms / 60_000) as nat) + "m timeout"@
    } else {
        decimal_seq((ms / 1_000) as nat) + "s timeout"@
    }
}

/// A timeout in whole minutes or seconds.
pub fn format_timeout(ms: u64) -> (r: String)
    ensures
        r@ == timeout_spec(ms),
{
    if ms >= 60_000 {
        concat(u64_to_string(ms / 60_000).as_str(), "m timeout")
    } else {
        concat(u64_to_string(ms / 1_000).as_str(), "s timeout")
    }
}

/// Where a long command is cut: three bytes before the limit, to make room
/// for the ellipsis.
pub open spec fn cut_at(max_len: usize) -> int {
    if max_len >= 3 { max_len - 3 } else { 0 }
}

/// A command shortened to `max_len` bytes: kept whole when it fits,
/// otherwise its first `max_len - 3` bytes followed by `...`.
pub open spec fn truncate_spec(cmd: Seq<char>, max_len: usize) -> Seq<char> {
    let bytes = encode_utf8(cmd);
    if bytes.len() <= max_len {
        cmd
    } else {
        decode_utf8(bytes.subrange(0, cut_at(max_len))) + "..."@
    }
}

/// A command shortened to `max_len` bytes. The cut must fall between two
/// characters.
pub fn truncate_command(cmd: &str, max_len: usize) -> (r: String)
    requires
        encode_utf8(cmd@).len() <= usize::MAX,
        encode_utf8(cmd@).len() > max_len ==> is_char_boundary(encode_utf8(cmd@), cut_at(max_len)),
    ensures
        r@ == truncate_spec(cmd@, max_len),
{
    if cmd.len() <= max_len {
        copy_str(cmd)
    } else {
        let cut: usize = if max_len >= 3 { max_len - 3 } else { 0 };
        let (head, _) = cmd.split_at(cut);
        proof {
            vstd::utf8::encode_utf8_decode_utf8(head@);
            assert(encode_utf8(head@) =~= encode_utf8(cmd@).subrange(0, cut as int));
        }
        concat(head, "...")
    }
}

/// The spans of a monitor row: id, description, shortened command, and
/// persistence or timeout.
pub open spec fn monitor_row_spec(m: MonitorEntry) -> Seq<SpanView> {
    seq![
        SpanView { text: m.monitor_id@, style: SpanStyle { fg: Some(Tone::Cyan), bold: true, dim: false } },
        SpanView { text: "  "@, style: plain() },
        SpanView { text: m.description@, style: bold() },
        SpanView { text: "  "@, style: plain() },
        SpanView { text: truncate_spec(m.command@, 30), style: fg(Tone::DarkGray) },
        SpanView { text: "  "@, style: plain() },
        SpanView { text: "["@ + (if m.persistent { "persistent"@ } else { timeout_spec(m.timeout_ms) }) + "]"@, style: fg(Tone::DarkGray) },
    ]
}

/// The spans of a monitor row. The command is cut between two characters.
pub fn monitor_row_line(m: &MonitorEntry) -> (r: Vec<StyledSpan>)
    requires
        encode_utf8(m.command@).len() <= usize::MAX,
        encode_utf8(m.command@).len() > 30 ==> is_char_boundary(encode_utf8(m.command@), 27),
    ensures
        line_view(r@) == monitor_row_spec(*m),
{
    let persistence = if m.persistent { copy_str("persistent") } else { format_timeout(m.timeout_ms) };
    let mut spans: Vec<StyledSpan> = Vec::new();
    spans.push(span(m.monitor_id.clone(), SpanStyle { fg: Some(Tone::Cyan), bold: true, dim: false }));
    spans.push(span(copy_str("  "), style_plain()));
    spans.push(span(m.description.clone(), SpanStyle { fg: None, bold: true, dim: false }));
    spans.push(span(copy_str("  "), style_plain()));
    spans.push(span(truncate_command(m.command.as_str(), 30), style_fg(Tone::DarkGray)));
    spans.push(span(copy_str("  "), style_plain()));
    spans.push(span(concat(concat("[", persistence.as_str()).as_str(), "]"), style_fg(Tone::DarkGray)));
    assert(line_view(spans@) =~= monitor_row_spec(*m));
    spans
}

/// Once the list has been kept in range, the highlighted row is inside it,
/// and nothing is highlighted in an empty list.
pub proof fn law_selection_in_range(o: MonitorOverlay)
    ensures
        ensure_spec(o).list_state.index matches Some(i) ==> i < o.monitors@.len(),
        ensure_spec(o).list_state.index is None <==> o.monitors@.len() == 0,
{
}

impl Default for MonitorOverlay {
    /// The same as [`MonitorOverlay::new`].
    fn default() -> (o: Self)
        ensures
            !o.visible,
            !o.focused,
            o.monitors@.len() == 0,
            o.list_state.index is None,
    {
        MonitorOverlay::new()
    }
}

/// The stop key stops the highlighted monitor: `x`, `X` or Delete ask to
/// stop exactly the monitor at the highlighted row, and nothing when no row
/// is highlighted; the overlay itself does not change.
pub proof fn law_stop_key_stops_highlighted(
    o: MonitorOverlay,
    n: MonitorOverlay,
    code: KeyCode,
    effects: Seq<CrossPanelEffect>,
    cmds: Seq<Command>,
)
    requires
        code == KeyCode::Char('x') || code == KeyCode::Char('X') || code == KeyCode::Delete,
        key_ok(o, n, code, effects, cmds),
    ensures
        n == o,
        effects.len() == 0,
        forall|i: usize| #![trigger o.monitors@[i as int]] o.list_state.index == Some(i) && i < o.monitors@.len() ==> cmds == seq![
            Command::MonitorStop { monitor_id: o.monitors@[i as int].monitor_id },
        ],
        o.list_state.index is None ==> cmds.len() == 0,
{
}

} // verus!
