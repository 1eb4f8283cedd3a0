//! The rows of the MCP overlay's lists other than the runtime servers:
//! settings, installed servers, catalog sources, catalog entries, and the
//! tools, resources and prompts of a server.

use vstd::prelude::*;

use crate::mcp_overlay::catalog_view::{install_status_list_label, install_status_list_label_spec};
use crate::mcp_overlay::state::McpOverlay;
use crate::mcp_overlay::types::{
    catalog_install_key, pair_key, resource_preview_key, CatalogSourceView, InstalledEntry,
    McpPromptEntry, McpResourceEntry, McpServerSettingsView, McpToolEntry, ServerEntry,
};
use crate::mcp_overlay::view::{bold, lookup};
use crate::styled::{fg, line_view, plain, span, style_bold, style_fg, style_plain, SpanView, StyledSpan, Tone};
use crate::text::{clip, clip_seq, concat, copy_str, decimal_seq, join, join_seq, str_eq, u64_to_string, views};

verus! {

/// The colour of a trust label: green for verified, yellow for community,
/// red for anything else.
pub open spec fn trust_tone_spec(value: Seq<char>) -> Tone {
    if value == "verified"@ {
        Tone::Green
    } else if value == "community"@ {
        Tone::Yellow
    } else {
        Tone::Red
    }
}

/// The colour of a trust label.
pub fn trust_tone(value: &str) -> (t: Tone)
    ensures
        t == trust_tone_spec(value@),
{
    if str_eq(value, "verified") {
        Tone::Green
    } else if str_eq(value, "community") {
        Tone::Yellow
    } else {
        Tone::Red
    }
}

/// Texts joined by commas, or `-` when there are none.
pub open spec fn join_or_dash_spec(values: Seq<String>) -> Seq<char> {
    if values.len() == 0 { "-"@ } else { join_seq(views(values), ", "@) }
}

/// Texts joined by commas, or `-` when there are none.
pub fn join_or_dash(values: &[String]) -> (r: String)
    ensures
        r@ == join_or_dash_spec(values@),
{
    if values.len() == 0 {
        copy_str("-")
    } else {
        join(values, ", ")
    }
}

/// The enabled marker of a row, padded to one width, and its colour.
pub open spec fn enabled_marker(enabled: bool) -> (Seq<char>, Tone) {
    if enabled { ("enabled "@, Tone::Green) } else { ("disabled"@, Tone::DarkGray) }
}

fn enabled_marker_text(enabled: bool) -> (r: (&'static str, Tone))
    ensures
        r.0@ == enabled_marker(enabled).0,
        r.1 == enabled_marker(enabled).1,
{
    proof {
        reveal_strlit("enabled ");
        reveal_strlit("disabled");
    }
    if enabled { ("enabled ", Tone::Green) } else { ("disabled", Tone::DarkGray) }
}

/// The spans of a server settings row: enabled marker, id, run state,
/// source and writability, and the tool count when known.
pub open spec fn setting_row_spec(s: McpServerSettingsView) -> Seq<SpanView> {
    seq![
        SpanView { text: enabled_marker(s.enabled).0, style: fg(enabled_marker(s.enabled).1) },
        SpanView { text: "  "@, style: plain() },
        SpanView { text: s.id@, style: bold() },
        SpanView { text: "  "@ + s.runtime_status@, style: fg(Tone::Gray) },
        SpanView {
            text: "  ["@ + s.source@ + (if s.writable { " writable"@ } else { " read-only"@ }) + "]"@,
            style: fg(Tone::DarkGray),
        },
        SpanView {
            text: match s.tool_count {
                Some(n) => " tools:"@ + decimal_seq(n as nat),
                None => Seq::empty(),
            },
            style: fg(Tone::Cyan),
        },
    ]
}

/// The spans of a server settings row.
pub fn setting_row_line(s: &McpServerSettingsView) -> (r: Vec<StyledSpan>)
    ensures
        line_view(r@) == setting_row_spec(*s),
{
    let (marker, tone) = enabled_marker_text(s.enabled);
    let writable = if s.writable { " writable" } else { " read-only" };
    let tools = match s.tool_count {
        Some(n) => concat(" tools:", u64_to_string(n as u64).as_str()),
        None => String::new(),
    };
    let mut spans: Vec<StyledSpan> = Vec::new();
    spans.push(span(copy_str(marker), style_fg(tone)));
    spans.push(span(copy_str("  "), style_plain()));
    spans.push(span(s.id.clone(), style_bold()));
    spans.push(span(concat("  ", s.runtime_status.as_str()), style_fg(Tone::Gray)));
    let src = concat(concat("  [", s.source.as_str()).as_str(), writable);
    spans.push(span(concat(src.as_str(), "]"), style_fg(Tone::DarkGray)));
    spans.push(span(tools, style_fg(Tone::Cyan)));
    assert(line_view(spans@) =~= setting_row_spec(*s));
    spans
}

/// The spans of an installed server row: running or stopped, id, and the
/// catalog entry and source it came from (`unknown` and `manual` when not
/// recorded).
pub open spec fn installed_row_spec(e: InstalledEntry) -> Seq<SpanView> {
    let catalog = match e.catalog_id { Some(c) => c@, None => "unknown"@ };
    let source = match e.source { Some(s) => s@, None => "manual"@ };
    seq![
        SpanView {
            text: if e.running { "running"@ } else { "stopped"@ },
            style: fg(if e.running { Tone::Green } else { Tone::Gray }),
        },
        SpanView { text: "  "@, style: plain() },
        SpanView { text: e.server_id@, style: bold() },
        SpanView { text: "  "@ + catalog + "@"@ + source, style: fg(Tone::DarkGray) },
    ]
}

/// The spans of an installed server row.
pub fn installed_row_line(e: &InstalledEntry) -> (r: Vec<StyledSpan>)
    ensures
        line_view(r@) == installed_row_spec(*e),
{
    let catalog = match &e.catalog_id {
        Some(c) => c.clone(),
        None => copy_str("unknown"),
    };
    let source = match &e.source {
        Some(s) => s.clone(),
        None => copy_str("manual"),
    };
    let mut spans: Vec<StyledSpan> = Vec::new();
    spans.push(span(copy_str(if e.running { "running" } else { "stopped" }), style_fg(if e.running { Tone::Green } else { Tone::Gray })));
    spans.push(span(copy_str("  "), style_plain()));
    spans.push(span(e.server_id.clone(), style_bold()));
    let head = concat(concat("  ", catalog.as_str()).as_str(), "@");
    spans.push(span(concat(head.as_str(), source.as_str()), style_fg(Tone::DarkGray)));
    assert(line_view(spans@) =~= installed_row_spec(*e));
    spans
}

/// The spans of a catalog source row: enabled marker, id, kind, and its
/// URL (`builtin` when it has none).
pub open spec fn source_row_spec(s: CatalogSourceView) -> Seq<SpanView> {
    seq![
        SpanView { text: enabled_marker(s.enabled).0, style: fg(enabled_marker(s.enabled).1) },
        SpanView { text: "  "@, style: plain() },
        SpanView { text: s.id@, style: bold() },
        SpanView { text: "  "@ + s.kind@, style: fg(Tone::DarkGray) },
        SpanView { text: "  "@, style: plain() },
        SpanView { text: if s.url@.len() == 0 { "builtin"@ } else { s.url@ }, style: fg(Tone::Gray) },
    ]
}

/// The spans of a catalog source row.
pub fn source_row_line(s: &CatalogSourceView) -> (r: Vec<StyledSpan>)
    ensures
        line_view(r@) == source_row_spec(*s),
{
    let (marker, tone) = enabled_marker_text(s.enabled);
    let location = if s.url.as_str().unicode_len() == 0 { copy_str("builtin") } else { s.url.clone() };
    let mut spans: Vec<StyledSpan> = Vec::new();
    spans.push(span(copy_str(marker), style_fg(tone)));
    spans.push(span(copy_str("  "), style_plain()));
    spans.push(span(s.id.clone(), style_bold()));
    spans.push(span(concat("  ", s.kind.as_str()), style_fg(Tone::DarkGray)));
    spans.push(span(copy_str("  "), style_plain()));
    spans.push(span(location, style_fg(Tone::Gray)));
    assert(line_view(spans@) =~= source_row_spec(*s));
    spans
}

/// Two spaces and a text cut to `max` characters, or nothing.
pub open spec fn opt_clipped(value: Option<String>, max: nat) -> Seq<char> {
    match value {
        Some(v) => "  "@ + clip_seq(v@, max),
        None => Seq::empty(),
    }
}

fn opt_clipped_text(value: &Option<String>, max: usize) -> (r: String)
    ensures
        r@ == opt_clipped(*value, max as nat),
{
    match value {
        Some(v) => concat("  ", clip(v.as_str(), max).as_str()),
        None => String::new(),
    }
}

/// The spans of a tool row: enabled marker, name, and its description cut
/// to 56 characters.
pub open spec fn tool_row_spec(t: McpToolEntry) -> Seq<SpanView> {
    seq![
        SpanView { text: enabled_marker(!t.disabled).0, style: fg(enabled_marker(!t.disabled).1) },
        SpanView { text: "  "@, style: plain() },
        SpanView { text: t.name@, style: bold() },
        SpanView { text: opt_clipped(t.description, 56), style: fg(Tone::Gray) },
    ]
}

/// The spans of a tool row.
pub fn tool_row_line(t: &McpToolEntry) -> (r: Vec<StyledSpan>)
    ensures
        line_view(r@) == tool_row_spec(*t),
{
    let (marker, tone) = enabled_marker_text(!t.disabled);
    let mut spans: Vec<StyledSpan> = Vec::new();
    spans.push(span(copy_str(marker), style_fg(tone)));
    spans.push(span(copy_str("  "), style_plain()));
    spans.push(span(t.name.clone(), style_bold()));
    spans.push(span(opt_clipped_text(&t.description, 56), style_fg(Tone::Gray)));
    assert(line_view(spans@) =~= tool_row_spec(*t));
    spans
}

/// The spans of a resource row: name, URI cut to 42 characters, MIME type,
/// and the preview read so far, cut to 56 characters.
pub open spec fn resource_row_spec(o: McpOverlay, r: McpResourceEntry) -> Seq<SpanView> {
    seq![
        SpanView { text: r.name@, style: bold() },
        SpanView { text: "  "@ + clip_seq(r.uri@, 42), style: fg(Tone::Cyan) },
        SpanView {
            text: match r.mime_type { Some(m) => "  "@ + m@, None => Seq::empty() },
            style: fg(Tone::DarkGray),
        },
        SpanView {
            text: match lookup(o.resource_previews.map(), pair_key(r.server_id@, r.uri@)) {
                Some(p) => "  "@ + clip_seq(p@, 56),
                None => Seq::empty(),
            },
            style: fg(Tone::Gray),
        },
    ]
}

/// The spans of a resource row.
pub fn resource_row_line(o: &McpOverlay, r: &McpResourceEntry) -> (l: Vec<StyledSpan>)
    requires
        o.wf(),
    ensures
        line_view(l@) == resource_row_spec(*o, *r),
{
    let mime = match &r.mime_type {
        Some(m) => concat("  ", m.as_str()),
        None => String::new(),
    };
    let key = resource_preview_key(r.server_id.as_str(), r.uri.as_str());
    let preview = match o.resource_previews.get(key.as_str()) {
        Some(p) => concat("  ", clip(p.as_str(), 56).as_str()),
        None => String::new(),
    };
    let mut spans: Vec<StyledSpan> = Vec::new();
    spans.push(span(r.name.clone(), style_bold()));
    spans.push(span(concat("  ", clip(r.uri.as_str(), 42).as_str()), style_fg(Tone::Cyan)));
    spans.push(span(mime, style_fg(Tone::DarkGray)));
    spans.push(span(preview, style_fg(Tone::Gray)));
    assert(line_view(spans@) =~= resource_row_spec(*o, *r));
    spans
}

/// The spans of a prompt row: name, argument count, and its description
/// cut to 56 characters.
pub open spec fn prompt_row_spec(p: McpPromptEntry) -> Seq<SpanView> {
    seq![
        SpanView { text: p.name@, style: bold() },
        SpanView { text: "  args:"@ + decimal_seq(p.argument_count as nat), style: fg(Tone::Cyan) },
        SpanView { text: opt_clipped(p.description, 56), style: fg(Tone::Gray) },
    ]
}

/// The spans of a prompt row.
pub fn prompt_row_line(p: &McpPromptEntry) -> (r: Vec<StyledSpan>)
    ensures
        line_view(r@) == prompt_row_spec(*p),
{
    let mut spans: Vec<StyledSpan> = Vec::new();
    spans.push(span(p.name.clone(), style_bold()));
    spans.push(span(concat("  args:", u64_to_string(p.argument_count as u64).as_str()), style_fg(Tone::Cyan)));
    spans.push(span(opt_clipped_text(&p.description, 56), style_fg(Tone::Gray)));
    assert(line_view(spans@) =~= prompt_row_spec(*p));
    spans
}

/// The spans of a catalog row: name, source, trust in its colour, summary,
/// and the install status when one is recorded.
pub open spec fn catalog_row_spec(o: McpOverlay, e: ServerEntry) -> Seq<SpanView> {
    let base = seq![
        SpanView { text: e.display_name@, style: bold() },
        SpanView { text: "  @"@ + e.source@, style: fg(Tone::Cyan) },
        SpanView { text: "  "@ + e.trust@, style: fg(trust_tone_spec(e.trust@)) },
        SpanView { text: "  "@, style: plain() },
        SpanView { text: e.summary@, style: fg(Tone::Gray) },
    ];
    match lookup(o.catalog_install_statuses.map(), pair_key(e.source@, e.id@)) {
        Some(st) => base.push(SpanView {
            text: "  "@ + install_status_list_label_spec(st).0,
            style: fg(install_status_list_label_spec(st).1),
        }),
        None => base,
    }
}

/// The spans of a catalog row.
pub fn catalog_row_line(o: &McpOverlay, e: &ServerEntry) -> (r: Vec<StyledSpan>)
    requires
        o.wf(),
    ensures
        line_view(r@) == catalog_row_spec(*o, *e),
{
    let mut spans: Vec<StyledSpan> = Vec::new();
    spans.push(span(e.display_name.clone(), style_bold()));
    spans.push(span(concat("  @", e.source.as_str()), style_fg(Tone::Cyan)));
    spans.push(span(concat("  ", e.trust.as_str()), style_fg(trust_tone(e.trust.as_str()))));
    spans.push(span(copy_str("  "), style_plain()));
    spans.push(span(e.summary.clone(), style_fg(Tone::Gray)));
    let key = catalog_install_key(e.source.as_str(), e.id.as_str());
    match o.catalog_install_statuses.get(key.as_str()) {
        Some(st) => {
            let (label, tone) = install_status_list_label(st);
            spans.push(span(concat("  ", label), style_fg(tone)));
        },
        None => {},
    }
    assert(line_view(spans@) =~= catalog_row_spec(*o, *e));
    spans
}

} // verus!
