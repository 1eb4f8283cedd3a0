//! What the permission modal draws, as lines of styled text: the request
//! on screen, the pending queue, recent decisions and the key hints.

use vstd::prelude::*;

use crate::mcp_overlay::view::bold;
use crate::permission_modal::{ModalView, PermissionHistoryEntry, PermissionModal, PermissionRequest, RiskLevel};
use crate::styled::{
    blank_line, fg, line_view, lines_view, one, one_line, plain, push_line, span, style_fg, style_plain,
    SpanStyle, SpanView, StyledSpan, Tone,
};
use crate::text::{concat, copy_str, decimal_seq, u64_to_string};

verus! {

/// Title, risk label, colour and warning of a risk level.
pub open spec fn risk_info(r: RiskLevel) -> (Seq<char>, Seq<char>, Tone, Seq<char>) {
    match r {
        RiskLevel::Destructive => ("⛔ Destructive Operation"@, "Destructive"@, Tone::Red, "This operation cannot be undone."@),
        RiskLevel::Write => ("🧠 Memory Write"@, "Write"@, Tone::Yellow, "This will save a memory entry."@),
        RiskLevel::McpTool { .. } => ("🔌 MCP Tool"@, "MCP"@, Tone::Magenta, Seq::empty()),
    }
}

/// How the request's tool is named: `[MCP] server/tool` for an MCP tool.
pub open spec fn tool_label_spec(q: PermissionRequest) -> Seq<char> {
    match q.risk_level {
        RiskLevel::McpTool { server_id } => "[MCP] "@ + server_id@ + "/"@ + q.tool_id@,
        _ => q.tool_id@,
    }
}

/// How a queued request is named.
pub open spec fn queue_label_spec(q: PermissionRequest) -> Seq<char> {
    match q.risk_level {
        RiskLevel::McpTool { server_id } => "[MCP] "@ + server_id@ + "/"@ + q.tool_id@,
        RiskLevel::Destructive => "[destructive] "@ + q.tool_id@,
        RiskLevel::Write => "[write] "@ + q.tool_id@,
    }
}


/// Row `i` of the pending queue.
pub open spec fn queue_row(i: int, q: PermissionRequest, tone: Tone) -> Seq<SpanView> {
    seq![
        SpanView { text: if i == 0 { ">"@ } else { " "@ }, style: fg(tone) },
        SpanView { text: " "@ + decimal_seq((i + 1) as nat) + " "@, style: plain() },
        SpanView { text: queue_label_spec(q), style: plain() },
    ]
}

/// A recent decision.
pub open spec fn history_row(e: PermissionHistoryEntry) -> Seq<SpanView> {
    seq![
        SpanView { text: if e.approved { "allowed"@ } else { "denied"@ }, style: fg(Tone::DarkGray) },
        SpanView { text: " "@ + e.request.tool_id@, style: plain() },
    ]
}

/// The smaller of two numbers.
pub open spec fn min_nat(a: nat, b: nat) -> nat {
    if a < b { a } else { b }
}

/// The first lines: header with the pending count (at least one), title,
/// tool, command and risk.
pub open spec fn head_part(m: ModalView, q: PermissionRequest) -> Seq<Seq<SpanView>> {
    let info = risk_info(q.risk_level);
    let tone = info.2;
    let count = if m.pending.len() > 1 { m.pending.len() } else { 1 };
    seq![
        seq![
            SpanView { text: "Permission Center"@, style: SpanStyle { fg: Some(tone), bold: true, dim: false } },
            SpanView { text: "  "@ + decimal_seq(count) + " pending"@, style: fg(Tone::DarkGray) },
        ],
        one(info.0, fg(tone)),
        Seq::empty(),
        seq![SpanView { text: "Tool: "@, style: fg(Tone::Gray) }, SpanView { text: tool_label_spec(q), style: plain() }],
        seq![SpanView { text: "Command: "@, style: fg(Tone::Gray) }, SpanView { text: q.tool_preview@, style: plain() }],
        seq![SpanView { text: "Risk: "@, style: fg(Tone::Gray) }, SpanView { text: info.1, style: fg(tone) }],
    ]
}

/// The warning, after a blank line, when the risk has one.
pub open spec fn warn_part(q: PermissionRequest) -> Seq<Seq<SpanView>> {
    let w = risk_info(q.risk_level).3;
    if w.len() > 0 { seq![Seq::empty(), one(w, plain())] } else { Seq::empty() }
}

/// The first four queued requests, when more than one waits.
pub open spec fn queue_part(m: ModalView, tone: Tone) -> Seq<Seq<SpanView>> {
    if m.pending.len() > 1 {
        seq![Seq::empty(), one("Pending queue"@, fg(Tone::Cyan))] + Seq::new(
            min_nat(m.pending.len(), 4),
            |i: int| queue_row(i, m.pending[i], tone),
        )
    } else {
        Seq::empty()
    }
}

/// The two latest decisions, newest first.
pub open spec fn recent_part(m: ModalView) -> Seq<Seq<SpanView>> {
    if m.history.len() > 0 {
        seq![Seq::empty(), one("Recent"@, fg(Tone::DarkGray))] + Seq::new(
            min_nat(m.history.len(), 2),
            |i: int| history_row(m.history[m.history.len() - 1 - i]),
        )
    } else {
        Seq::empty()
    }
}

/// The key hints, with Trust for an MCP tool.
pub open spec fn hints_part(q: PermissionRequest) -> Seq<SpanView> {
    seq![SpanView { text: "[Y] Allow once  "@, style: fg(Tone::Yellow) }, SpanView { text: "[N] Deny  "@, style: fg(Tone::Gray) }]
        + (if q.risk_level is McpTool { seq![SpanView { text: "[T] Trust server  "@, style: fg(Tone::Magenta) }] } else { Seq::empty() })
        + seq![SpanView { text: "[Esc] Cancel"@, style: fg(Tone::DarkGray) }]
}

/// The lines of the modal for request `q`: the head, the warning, the
/// queue, the recent decisions, a blank line and the key hints.
pub open spec fn modal_lines_spec(m: ModalView, q: PermissionRequest) -> Seq<Seq<SpanView>> {
    head_part(m, q) + warn_part(q) + queue_part(m, risk_info(q.risk_level).2) + recent_part(m) + seq![Seq::empty(), hints_part(q)]
}

/// Title, label, colour and warning of a risk level.
fn risk_texts(r: &RiskLevel) -> (out: (&'static str, &'static str, Tone, &'static str))
    ensures
        out.0@ == risk_info(*r).0,
        out.1@ == risk_info(*r).1,
        out.2 == risk_info(*r).2,
        out.3@ == risk_info(*r).3,
{
    proof {
        reveal_strlit("");
    }
    match r {
        RiskLevel::Destructive => ("⛔ Destructive Operation", "Destructive", Tone::Red, "This operation cannot be undone."),
        RiskLevel::Write => ("🧠 Memory Write", "Write", Tone::Yellow, "This will save a memory entry."),
        RiskLevel::McpTool { .. } => ("🔌 MCP Tool", "MCP", Tone::Magenta, ""),
    }
}

/// How a queued request is named.
fn queue_label(q: &PermissionRequest) -> (r: String)
    ensures
        r@ == queue_label_spec(*q),
{
    match &q.risk_level {
        RiskLevel::McpTool { server_id } => concat(
            concat(concat("[MCP] ", server_id.as_str()).as_str(), "/").as_str(),
            q.tool_id.as_str(),
        ),
        RiskLevel::Destructive => concat("[destructive] ", q.tool_id.as_str()),
        RiskLevel::Write => concat("[write] ", q.tool_id.as_str()),
    }
}

/// The first lines of the modal.
fn head_lines(m: &PermissionModal, q: &PermissionRequest) -> (r: Vec<Vec<StyledSpan>>)
    requires
        m.pending_requests@.len() <= u64::MAX,
    ensures
        lines_view(r@) == head_part(m@, *q),
{
    let (title, risk_label, tone, _) = risk_texts(&q.risk_level);
    let tool_label = match &q.risk_level {
        RiskLevel::McpTool { server_id } => concat(
            concat(concat("[MCP] ", server_id.as_str()).as_str(), "/").as_str(),
            q.tool_id.as_str(),
        ),
        _ => q.tool_id.clone(),
    };
    let n = m.pending_requests.len();
    let count = if n > 1 { n } else { 1 };
    let ghost spec = head_part(m@, *q);
    let mut lines: Vec<Vec<StyledSpan>> = Vec::new();
    let mut header: Vec<StyledSpan> = Vec::new();
    header.push(span(copy_str("Permission Center"), SpanStyle { fg: Some(tone), bold: true, dim: false }));
    header.push(span(
        concat(concat("  ", u64_to_string(count as u64).as_str()).as_str(), " pending"),
        style_fg(Tone::DarkGray),
    ));
    assert(line_view(header@) =~= spec[0]);
    push_line(&mut lines, header);
    push_line(&mut lines, one_line(copy_str(title), style_fg(tone)));
    push_line(&mut lines, blank_line());
    let mut tool: Vec<StyledSpan> = Vec::new();
    tool.push(span(copy_str("Tool: "), style_fg(Tone::Gray)));
    tool.push(span(tool_label, style_plain()));
    assert(line_view(tool@) =~= spec[3]);
    push_line(&mut lines, tool);
    let mut command: Vec<StyledSpan> = Vec::new();
    command.push(span(copy_str("Command: "), style_fg(Tone::Gray)));
    command.push(span(q.tool_preview.clone(), style_plain()));
    assert(line_view(command@) =~= spec[4]);
    push_line(&mut lines, command);
    let mut risk: Vec<StyledSpan> = Vec::new();
    risk.push(span(copy_str("Risk: "), style_fg(Tone::Gray)));
    risk.push(span(copy_str(risk_label), style_fg(tone)));
    assert(line_view(risk@) =~= spec[5]);
    push_line(&mut lines, risk);
    assert(lines_view(lines@) =~= spec);
    lines
}

/// Adds the warning lines.
fn push_warning(lines: &mut Vec<Vec<StyledSpan>>, q: &PermissionRequest)
    ensures
        lines_view(final(lines)@) == lines_view(old(lines)@) + warn_part(*q),
{
    let (_, _, _, warning) = risk_texts(&q.risk_level);
    if warning.unicode_len() > 0 {
        push_line(lines, blank_line());
        push_line(lines, one_line(copy_str(warning), style_plain()));
        assert(lines_view(lines@) =~= lines_view(old(lines)@) + warn_part(*q));
    } else {
        assert(lines_view(lines@) =~= lines_view(old(lines)@) + warn_part(*q));
    }
}

/// Adds the pending queue lines.
fn push_queue(lines: &mut Vec<Vec<StyledSpan>>, m: &PermissionModal, tone: Tone)
    ensures
        lines_view(final(lines)@) == lines_view(old(lines)@) + queue_part(m@, tone),
{
    let n = m.pending_requests.len();
    if n <= 1 {
        assert(lines_view(lines@) =~= lines_view(old(lines)@) + queue_part(m@, tone));
        return;
    }
    push_line(lines, blank_line());
    push_line(lines, one_line(copy_str("Pending queue"), style_fg(Tone::Cyan)));
    let ghost start = lines_view(lines@);
    let limit = if n < 4 { n } else { 4 };
    let mut i: usize = 0;
    while i < limit
        invariant
            i <= limit,
            limit <= 4,
            limit <= n,
            n == m.pending_requests@.len(),
            lines_view(lines@) == start + Seq::new(i as nat, |k: int| queue_row(k, m.pending_requests@[k], tone)),
        decreases limit - i,
    {
        let p = &m.pending_requests[i];
        let mut row: Vec<StyledSpan> = Vec::new();
        row.push(span(copy_str(if i == 0 { ">" } else { " " }), style_fg(tone)));
        row.push(span(
            concat(concat(" ", u64_to_string((i + 1) as u64).as_str()).as_str(), " "),
            style_plain(),
        ));
        row.push(span(queue_label(p), style_plain()));
        assert(line_view(row@) =~= queue_row(i as int, m.pending_requests@[i as int], tone));
        push_line(lines, row);
        i = i + 1;
        assert(Seq::new(i as nat, |k: int| queue_row(k, m.pending_requests@[k], tone)) =~= Seq::new(
            (i - 1) as nat,
            |k: int| queue_row(k, m.pending_requests@[k], tone),
        ).push(queue_row((i - 1) as int, m.pending_requests@[i - 1], tone)));
    }
    assert(lines_view(lines@) =~= lines_view(old(lines)@) + queue_part(m@, tone));
}

/// Adds the recent decision lines.
fn push_recent(lines: &mut Vec<Vec<StyledSpan>>, m: &PermissionModal)
    ensures
        lines_view(final(lines)@) == lines_view(old(lines)@) + recent_part(m@),
{
    let h = m.history.len();
    if h == 0 {
        assert(lines_view(lines@) =~= lines_view(old(lines)@) + recent_part(m@));
        return;
    }
    push_line(lines, blank_line());
    push_line(lines, one_line(copy_str("Recent"), style_fg(Tone::DarkGray)));
    let ghost start = lines_view(lines@);
    let limit = if h < 2 { h } else { 2 };
    let mut i: usize = 0;
    while i < limit
        invariant
            i <= limit,
            limit <= h,
            h == m.history@.len(),
            lines_view(lines@) == start + Seq::new(i as nat, |k: int| history_row(m.history@[h - 1 - k])),
        decreases limit - i,
    {
        let e = &m.history[h - 1 - i];
        let mut row: Vec<StyledSpan> = Vec::new();
        row.push(span(copy_str(if e.approved { "allowed" } else { "denied" }), style_fg(Tone::DarkGray)));
        row.push(span(concat(" ", e.request.tool_id.as_str()), style_plain()));
        assert(line_view(row@) =~= history_row(m.history@[h - 1 - i]));
        push_line(lines, row);
        i = i + 1;
        assert(Seq::new(i as nat, |k: int| history_row(m.history@[h - 1 - k])) =~= Seq::new(
            (i - 1) as nat,
            |k: int| history_row(m.history@[h - 1 - k]),
        ).push(history_row(m.history@[h - 1 - (i - 1)])));
    }
    assert(lines_view(lines@) =~= lines_view(old(lines)@) + recent_part(m@));
}

/// The key hints line.
fn hints_line(q: &PermissionRequest) -> (r: Vec<StyledSpan>)
    ensures
        line_view(r@) == hints_part(*q),
{
    let mut hints: Vec<StyledSpan> = Vec::new();
    hints.push(span(copy_str("[Y] Allow once  "), style_fg(Tone::Yellow)));
    hints.push(span(copy_str("[N] Deny  "), style_fg(Tone::Gray)));
    let mcp = match &q.risk_level {
        RiskLevel::McpTool { .. } => true,
        _ => false,
    };
    if mcp {
        hints.push(span(copy_str("[T] Trust server  "), style_fg(Tone::Magenta)));
    }
    hints.push(span(copy_str("[Esc] Cancel"), style_fg(Tone::DarkGray)));
    assert(line_view(hints@) =~= hints_part(*q));
    hints
}

/// The lines of the modal, when a request is on screen.
pub fn modal_lines(m: &PermissionModal) -> (r: Option<Vec<Vec<StyledSpan>>>)
    requires
        m.pending_requests@.len() <= u64::MAX,
    ensures
        r is None <==> m.request is None,
        r matches Some(lines) ==> lines_view(lines@) == modal_lines_spec(m@, m.request.unwrap()),
{
    let q = match &m.request {
        Some(q) => q,
        None => return None,
    };
    let (_, _, tone, _) = risk_texts(&q.risk_level);
    let mut lines = head_lines(m, q);
    push_warning(&mut lines, q);
    push_queue(&mut lines, m, tone);
    push_recent(&mut lines, m);
    push_line(&mut lines, blank_line());
    push_line(&mut lines, hints_line(q));
    assert(lines_view(lines@) =~= modal_lines_spec(m@, *q));
    Some(lines)
}

} // verus!
