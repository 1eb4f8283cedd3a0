//! What the MCP overlay draws, as styled text: the runtime rows, the rows
//! of its editors, the catalog summary and the key hints.

use vstd::prelude::*;

use crate::mcp_overlay::editor::{
    CatalogInstallDraft,
    text_values, ServerDraft, ServerDraftView, ServerEditorField, ServerTransportDraft,
    SourceDraft, SourceDraftView, SourceEditorField,
};
use crate::mcp_overlay::state::{visible_indices_spec, McpOverlay};
use crate::mcp_overlay::types::{
    McpConnectivityEntry, McpHealthState, McpOverlayMode, McpOverlayTab, McpServerEntry,
    McpServerStatusView, McpToolEntry,
};
use crate::styled::{
    fg, line_view, lines_view, one, one_line, plain, push_line, span, style_bold, style_fg, style_plain, SpanStyle,
    SpanView, StyledSpan, Tone,
};
use crate::text::{
    clip, clip_seq, concat, copy_str, decimal_seq, is_blank, pad_right, pad_right_seq,
    repeat_char, repeat_seq, trim, trim_seq, u64_to_string,
};

verus! {

/// Bold text without colour.
pub open spec fn bold() -> SpanStyle {
    SpanStyle { fg: None, bold: true, dim: false }
}

/// Label and colour of a run state, padded to one width.
pub open spec fn status_label_spec(st: McpServerStatusView) -> (Seq<char>, Tone) {
    match st {
        McpServerStatusView::Running => ("running "@, Tone::Green),
        McpServerStatusView::Starting => ("starting"@, Tone::Yellow),
        McpServerStatusView::Stopped => ("stopped "@, Tone::DarkGray),
        McpServerStatusView::Failed => ("failed  "@, Tone::Red),
    }
}

/// Label and colour of a run state.
pub fn status_label(st: McpServerStatusView) -> (r: (&'static str, Tone))
    ensures
        r.0@ == status_label_spec(st).0,
        r.1 == status_label_spec(st).1,
{
    proof {
        reveal_strlit("running ");
        reveal_strlit("starting");
        reveal_strlit("stopped ");
        reveal_strlit("failed  ");
    }
    match st {
        McpServerStatusView::Running => ("running ", Tone::Green),
        McpServerStatusView::Starting => ("starting", Tone::Yellow),
        McpServerStatusView::Stopped => ("stopped ", Tone::DarkGray),
        McpServerStatusView::Failed => ("failed  ", Tone::Red),
    }
}

/// The health part of a runtime row, and its colour.
pub open spec fn health_label_spec(h: Option<McpHealthState>) -> (Seq<char>, Tone) {
    match h {
        None => (Seq::empty(), Tone::DarkGray),
        Some(s) => if s.healthy {
            (" health:ok("@ + decimal_seq(s.tool_count as nat) + ")"@, Tone::Green)
        } else {
            match s.error {
                Some(e) => (" health:fail("@ + clip_seq(e@, 18) + ")"@, Tone::Red),
                None => (" health:fail"@, Tone::Red),
            }
        },
    }
}

/// The connectivity part of a runtime row, and its colour.
pub open spec fn connectivity_label_spec(c: Option<McpConnectivityEntry>) -> (Seq<char>, Tone) {
    match c {
        None => (Seq::empty(), Tone::DarkGray),
        Some(s) => if s.connected {
            (" conn:ok"@ + match s.tool_count {
                Some(n) => "("@ + decimal_seq(n as nat) + ")"@,
                None => Seq::empty(),
            }, Tone::Green)
        } else {
            (" conn:fail"@, Tone::Red)
        },
    }
}

/// Number of disabled tools.
pub open spec fn disabled_count(tools: Seq<McpToolEntry>) -> nat
    decreases tools.len(),
{
    if tools.len() == 0 {
        0
    } else {
        disabled_count(tools.drop_last()) + if tools.last().disabled { 1nat } else { 0nat }
    }
}

/// The tools part of a runtime row: the tool count, and how many tools are
/// off when some are; with its colour.
pub open spec fn tools_label_spec(tool_count: usize, off: nat) -> (Seq<char>, Tone) {
    if off > 0 {
        ("  tools:"@ + decimal_seq(tool_count as nat) + " ("@ + decimal_seq(off) + " off)"@, Tone::Yellow)
    } else {
        ("  tools:"@ + decimal_seq(tool_count as nat), Tone::DarkGray)
    }
}

/// The value stored under `key`, if any.
pub open spec fn lookup<V>(m: Map<Seq<char>, V>, key: Seq<char>) -> Option<V> {
    if m.contains_key(key) { Some(m[key]) } else { None }
}

/// The spans of a runtime server row.
pub open spec fn runtime_row_spec(o: McpOverlay, s: McpServerEntry) -> Seq<SpanView> {
    let id = s.server_id@;
    let status = status_label_spec(s.status);
    let off = match lookup(o.tools.map(), id) {
        Some(t) => disabled_count(t@),
        None => 0,
    };
    let tools = tools_label_spec(s.tool_count, off);
    let health = health_label_spec(lookup(o.health.map(), id));
    let conn = connectivity_label_spec(lookup(o.connectivity.map(), id));
    seq![
        SpanView { text: status.0, style: fg(status.1) },
        SpanView { text: "  "@, style: plain() },
        SpanView { text: id, style: bold() },
        SpanView { text: tools.0, style: fg(tools.1) },
        SpanView { text: if s.trusted { " trusted"@ } else { Seq::empty() }, style: fg(Tone::Magenta) },
        SpanView { text: health.0, style: fg(health.1) },
        SpanView { text: conn.0, style: fg(conn.1) },
    ]
}

/// Counts the disabled tools.
fn count_disabled(tools: &[McpToolEntry]) -> (n: usize)
    ensures
        n == disabled_count(tools@),
{
    let mut n: usize = 0;
    let mut i: usize = 0;
    while i < tools.len()
        invariant
            i <= tools.len(),
            n == disabled_count(tools@.subrange(0, i as int)),
            n <= i,
        decreases tools.len() - i,
    {
        proof {
            assert(tools@.subrange(0, i + 1).drop_last() =~= tools@.subrange(0, i as int));
        }
        if tools[i].disabled {
            n = n + 1;
        }
        i = i + 1;
    }
    assert(tools@.subrange(0, tools@.len() as int) =~= tools@);
    n
}

/// The health part of a runtime row.
pub fn health_label(h: Option<&McpHealthState>) -> (r: (String, Tone))
    ensures
        r.0@ == health_label_spec(match h { Some(x) => Some(*x), None => None }).0,
        r.1 == health_label_spec(match h { Some(x) => Some(*x), None => None }).1,
{
    match h {
        None => (String::new(), Tone::DarkGray),
        Some(s) => if s.healthy {
            let n = u64_to_string(s.tool_count as u64);
            (concat(concat(" health:ok(", n.as_str()).as_str(), ")"), Tone::Green)
        } else {
            match &s.error {
                Some(e) => {
                    let c = clip(e.as_str(), 18);
                    (concat(concat(" health:fail(", c.as_str()).as_str(), ")"), Tone::Red)
                },
                None => (copy_str(" health:fail"), Tone::Red),
            }
        },
    }
}

/// The connectivity part of a runtime row.
pub fn connectivity_label(c: Option<&McpConnectivityEntry>) -> (r: (String, Tone))
    ensures
        r.0@ == connectivity_label_spec(match c { Some(x) => Some(*x), None => None }).0,
        r.1 == connectivity_label_spec(match c { Some(x) => Some(*x), None => None }).1,
{
    match c {
        None => (String::new(), Tone::DarkGray),
        Some(s) => if s.connected {
            let count = match s.tool_count {
                Some(n) => {
                    let d = u64_to_string(n as u64);
                    concat(concat("(", d.as_str()).as_str(), ")")
                },
                None => String::new(),
            };
            (concat(" conn:ok", count.as_str()), Tone::Green)
        } else {
            (copy_str(" conn:fail"), Tone::Red)
        },
    }
}

/// The tools part of a runtime row.
pub fn tools_label(tool_count: usize, off: usize) -> (r: (String, Tone))
    ensures
        r.0@ == tools_label_spec(tool_count, off as nat).0,
        r.1 == tools_label_spec(tool_count, off as nat).1,
{
    let count = u64_to_string(tool_count as u64);
    let base = concat("  tools:", count.as_str());
    if off > 0 {
        let o = u64_to_string(off as u64);
        let with_off = concat(concat(base.as_str(), " (").as_str(), o.as_str());
        (concat(with_off.as_str(), " off)"), Tone::Yellow)
    } else {
        (base, Tone::DarkGray)
    }
}

/// The spans of a runtime server row: run state, id, tools, trust, health
/// and connectivity.
pub fn runtime_row_line(o: &McpOverlay, s: &McpServerEntry) -> (r: Vec<StyledSpan>)
    requires
        o.wf(),
    ensures
        line_view(r@) == runtime_row_spec(*o, *s),
{
    let (status, status_tone) = status_label(s.status);
    let off = match o.tools.get(s.server_id.as_str()) {
        Some(t) => count_disabled(t.as_slice()),
        None => 0,
    };
    let (tools, tools_tone) = tools_label(s.tool_count, off);
    let (health, health_tone) = health_label(o.health.get(s.server_id.as_str()));
    let (conn, conn_tone) = connectivity_label(o.connectivity.get(s.server_id.as_str()));
    let trust = if s.trusted { copy_str(" trusted") } else { String::new() };
    let mut spans: Vec<StyledSpan> = Vec::new();
    spans.push(span(copy_str(status), style_fg(status_tone)));
    spans.push(span(copy_str("  "), style_plain()));
    spans.push(span(s.server_id.clone(), style_bold()));
    spans.push(span(tools, style_fg(tools_tone)));
    spans.push(span(trust, style_fg(Tone::Magenta)));
    spans.push(span(health, style_fg(health_tone)));
    spans.push(span(conn, style_fg(conn_tone)));
    assert(line_view(spans@) =~= runtime_row_spec(*o, *s));
    spans
}

/// Label of a server editor field.
pub open spec fn server_field_label_spec(f: ServerEditorField) -> Seq<char> {
    match f {
        ServerEditorField::Name => "Name"@,
        ServerEditorField::Transport => "Transport"@,
        ServerEditorField::CommandOrUrl => "Command/URL"@,
        ServerEditorField::Args => "Args"@,
        ServerEditorField::Description => "Description"@,
        ServerEditorField::Enabled => "Enabled"@,
    }
}

/// Label of a server editor field.
pub fn server_field_label(f: ServerEditorField) -> (r: &'static str)
    ensures
        r@ == server_field_label_spec(f),
{
    match f {
        ServerEditorField::Name => "Name",
        ServerEditorField::Transport => "Transport",
        ServerEditorField::CommandOrUrl => "Command/URL",
        ServerEditorField::Args => "Args",
        ServerEditorField::Description => "Description",
        ServerEditorField::Enabled => "Enabled",
    }
}

/// Name of a transport.
pub open spec fn transport_label_spec(t: ServerTransportDraft) -> Seq<char> {
    match t {
        ServerTransportDraft::Stdio => "stdio"@,
        ServerTransportDraft::Sse => "sse"@,
        ServerTransportDraft::StreamableHttp => "streamable_http"@,
    }
}

/// Name of a transport.
pub fn server_transport_label(t: ServerTransportDraft) -> (r: &'static str)
    ensures
        r@ == transport_label_spec(t),
{
    match t {
        ServerTransportDraft::Stdio => "stdio",
        ServerTransportDraft::Sse => "sse",
        ServerTransportDraft::StreamableHttp => "streamable_http",
    }
}

/// `true` or `false`.
pub open spec fn bool_text(b: bool) -> Seq<char> {
    if b { "true"@ } else { "false"@ }
}

/// The value a server editor field shows: the command or the URL by
/// transport, and `n/a` for the arguments of a remote server.
pub open spec fn server_field_value_spec(d: ServerDraftView, f: ServerEditorField) -> Seq<char> {
    match f {
        ServerEditorField::Name => d.name,
        ServerEditorField::Transport => transport_label_spec(d.transport),
        ServerEditorField::CommandOrUrl => if d.transport == ServerTransportDraft::Stdio { d.command } else { d.url },
        ServerEditorField::Args => if d.transport == ServerTransportDraft::Stdio { d.args_text } else { "n/a"@ },
        ServerEditorField::Description => d.description,
        ServerEditorField::Enabled => bool_text(d.enabled),
    }
}

/// The value a server editor field shows.
pub fn server_field_value(d: &ServerDraft, f: ServerEditorField) -> (r: String)
    ensures
        r@ == server_field_value_spec(d@, f),
{
    match f {
        ServerEditorField::Name => d.name.clone(),
        ServerEditorField::Transport => copy_str(server_transport_label(d.transport)),
        ServerEditorField::CommandOrUrl => if d.transport == ServerTransportDraft::Stdio {
            d.command.clone()
        } else {
            d.url.clone()
        },
        ServerEditorField::Args => if d.transport == ServerTransportDraft::Stdio {
            d.args_text.clone()
        } else {
            copy_str("n/a")
        },
        ServerEditorField::Description => d.description.clone(),
        ServerEditorField::Enabled => copy_str(if d.enabled { "true" } else { "false" }),
    }
}

/// Label of a source editor field.
pub open spec fn source_field_label_spec(f: SourceEditorField) -> Seq<char> {
    match f {
        SourceEditorField::Id => "ID"@,
        SourceEditorField::DisplayName => "Name"@,
        SourceEditorField::Url => "URL"@,
        SourceEditorField::ApiKeyEnv => "API key env"@,
        SourceEditorField::Priority => "Priority"@,
        SourceEditorField::DefaultTrust => "Trust"@,
        SourceEditorField::Enabled => "Enabled"@,
    }
}

/// Label of a source editor field.
pub fn source_field_label(f: SourceEditorField) -> (r: &'static str)
    ensures
        r@ == source_field_label_spec(f),
{
    match f {
        SourceEditorField::Id => "ID",
        SourceEditorField::DisplayName => "Name",
        SourceEditorField::Url => "URL",
        SourceEditorField::ApiKeyEnv => "API key env",
        SourceEditorField::Priority => "Priority",
        SourceEditorField::DefaultTrust => "Trust",
        SourceEditorField::Enabled => "Enabled",
    }
}

/// The value a source editor field shows.
pub open spec fn source_field_value_spec(d: SourceDraftView, f: SourceEditorField) -> Seq<char> {
    match f {
        SourceEditorField::Id => d.id,
        SourceEditorField::DisplayName => d.display_name,
        SourceEditorField::Url => d.url,
        SourceEditorField::ApiKeyEnv => d.api_key_env,
        SourceEditorField::Priority => d.priority,
        SourceEditorField::DefaultTrust => d.default_trust,
        SourceEditorField::Enabled => bool_text(d.enabled),
    }
}

/// The value a source editor field shows.
pub fn source_field_value(d: &SourceDraft, f: SourceEditorField) -> (r: String)
    ensures
        r@ == source_field_value_spec(d@, f),
{
    match f {
        SourceEditorField::Id => d.id.clone(),
        SourceEditorField::DisplayName => d.display_name.clone(),
        SourceEditorField::Url => d.url.clone(),
        SourceEditorField::ApiKeyEnv => d.api_key_env.clone(),
        SourceEditorField::Priority => d.priority.clone(),
        SourceEditorField::DefaultTrust => d.default_trust.clone(),
        SourceEditorField::Enabled => copy_str(if d.enabled { "true" } else { "false" }),
    }
}

/// The spans of an editor row: the cursor marker, the label padded to 12
/// characters, and the value.
pub open spec fn editor_row_spec(current: bool, label: Seq<char>, value: Seq<char>) -> Seq<SpanView> {
    seq![
        SpanView { text: if current { "> "@ } else { "  "@ }, style: fg(Tone::Magenta) },
        SpanView { text: pad_right_seq(label, 12), style: bold() },
        SpanView { text: " "@, style: plain() },
        SpanView { text: value, style: fg(Tone::Gray) },
    ]
}

/// The spans of an editor row.
pub fn editor_row_line(current: bool, label: &str, value: String) -> (r: Vec<StyledSpan>)
    ensures
        line_view(r@) == editor_row_spec(current, label@, value@),
{
    let mut spans: Vec<StyledSpan> = Vec::new();
    spans.push(span(copy_str(if current { "> " } else { "  " }), style_fg(Tone::Magenta)));
    spans.push(span(pad_right(label, 12), style_bold()));
    spans.push(span(copy_str(" "), style_plain()));
    spans.push(span(value, style_fg(Tone::Gray)));
    assert(line_view(spans@) =~= editor_row_spec(current, label@, value@));
    spans
}

/// The value an install item shows: a secret is masked with one star per
/// character, at most 12.
pub open spec fn install_value_label(secret: bool, value: Seq<char>) -> Seq<char> {
    if secret && value.len() > 0 {
        repeat_seq('*', if value.len() < 12 { value.len() } else { 12 })
    } else {
        value
    }
}

/// The spans of row `index` of the install configuration form: marker,
/// key, kind, whether it is required (yellow while a required value is
/// blank), a secret flag, and the value.
pub open spec fn install_row_spec(o: McpOverlay, index: int) -> Seq<SpanView> {
    let d = o.catalog_install_draft;
    let item = d.items@[index];
    let tv = text_values(d.values.map());
    let value = if tv.contains_key(item.key@) { tv[item.key@] } else { Seq::empty() };
    let missing = item.required && is_blank(value);
    seq![
        SpanView { text: if index == o.catalog_install_field_index { "> "@ } else { "  "@ }, style: fg(Tone::Magenta) },
        SpanView { text: pad_right_seq(item.key@, 18), style: bold() },
        SpanView { text: pad_right_seq(item.kind@, 12), style: fg(Tone::Cyan) },
        SpanView {
            text: pad_right_seq(if item.required { "required"@ } else { "optional"@ }, 8) + " "@,
            style: fg(if missing { Tone::Yellow } else { Tone::DarkGray }),
        },
        SpanView { text: if item.secret { "secret "@ } else { "       "@ }, style: fg(Tone::DarkGray) },
        SpanView { text: install_value_label(item.secret, value), style: plain() },
    ]
}

/// The spans of a row of the install configuration form.
pub fn install_row_line(o: &McpOverlay, index: usize) -> (r: Vec<StyledSpan>)
    requires
        o.wf(),
        index < o.catalog_install_draft.items@.len(),
    ensures
        line_view(r@) == install_row_spec(*o, index as int),
{
    let d = &o.catalog_install_draft;
    let item = &d.items[index];
    let value = match d.values.get(item.key.as_str()) {
        Some(v) => v.clone(),
        None => String::new(),
    };
    let missing = item.required && crate::text::is_blank_str(value.as_str());
    let n = value.unicode_len();
    let value_label = if item.secret && n > 0 {
        repeat_char('*', if n < 12 { n } else { 12 })
    } else {
        value
    };
    let required = pad_right(if item.required { "required" } else { "optional" }, 8);
    let mut spans: Vec<StyledSpan> = Vec::new();
    spans.push(span(copy_str(if index == o.catalog_install_field_index { "> " } else { "  " }), style_fg(Tone::Magenta)));
    spans.push(span(pad_right(item.key.as_str(), 18), style_bold()));
    spans.push(span(pad_right(item.kind.as_str(), 12), style_fg(Tone::Cyan)));
    spans.push(span(concat(required.as_str(), " "), style_fg(if missing { Tone::Yellow } else { Tone::DarkGray })));
    spans.push(span(copy_str(if item.secret { "secret " } else { "       " }), style_fg(Tone::DarkGray)));
    spans.push(span(value_label, style_plain()));
    assert(line_view(spans@) =~= install_row_spec(*o, index as int));
    spans
}

/// The key hints of the current tab, or of the catalog search.
pub open spec fn hints_action_spec(o: McpOverlay) -> Seq<char> {
    if o.mode == McpOverlayMode::CatalogFilter {
        "[Enter/Esc] apply search  [Backspace] edit  "@
    } else {
        match o.tab {
            McpOverlayTab::Runtime => "[Enter] start/stop  [t] trust/revoke  [h] health  [c] test  [r] tools  "@,
            McpOverlayTab::Settings => "[n] new  [Enter] edit  [e] enable  [d/a] project off/on  [o] config  [x] delete  "@,
            McpOverlayTab::Installed => "[x/u] uninstall  [r] reload  "@,
            McpOverlayTab::Catalog => "[i] install  [/] search  [t] trust  [r] reload  "@,
            McpOverlayTab::Sources => "[n] new  [e] enable source  [x] remove  [o] config  [r] reload  "@,
            McpOverlayTab::Tools => "[r] health  [e/Enter] enable tool  "@,
            McpOverlayTab::Resources => "[r] list  [Enter] read  "@,
            McpOverlayTab::Prompts => "[r] list  "@,
        }
    }
}

/// The key hints of the current tab.
pub fn hints_action(o: &McpOverlay) -> (r: &'static str)
    ensures
        r@ == hints_action_spec(*o),
{
    if o.mode == McpOverlayMode::CatalogFilter {
        "[Enter/Esc] apply search  [Backspace] edit  "
    } else {
        match o.tab {
            McpOverlayTab::Runtime => "[Enter] start/stop  [t] trust/revoke  [h] health  [c] test  [r] tools  ",
            McpOverlayTab::Settings => "[n] new  [Enter] edit  [e] enable  [d/a] project off/on  [o] config  [x] delete  ",
            McpOverlayTab::Installed => "[x/u] uninstall  [r] reload  ",
            McpOverlayTab::Catalog => "[i] install  [/] search  [t] trust  [r] reload  ",
            McpOverlayTab::Sources => "[n] new  [e] enable source  [x] remove  [o] config  [r] reload  ",
            McpOverlayTab::Tools => "[r] health  [e/Enter] enable tool  ",
            McpOverlayTab::Resources => "[r] list  [Enter] read  ",
            McpOverlayTab::Prompts => "[r] list  ",
        }
    }
}

/// The catalog summary of the tab bar: visible and total entries, the
/// search keyword (`*` when blank, clipped to 18 characters) and the trust
/// filter.
pub open spec fn catalog_summary_spec(o: McpOverlay, trust_label: Seq<char>) -> Seq<char> {
    let kw = trim_seq(o.catalog_keyword@);
    "catalog: "@ + decimal_seq(visible_indices_spec(o).len()) + "/"@ + decimal_seq(o.catalog@.len()) + "  search:"@
        + (if kw.len() == 0 { "*"@ } else { clip_seq(kw, 18) }) + "  trust:"@ + trust_label
}

/// The catalog summary of the tab bar.
pub fn catalog_summary(o: &McpOverlay) -> (r: String)
    ensures
        r@ == catalog_summary_spec(*o, match o.catalog_trust_filter {
            crate::mcp_overlay::types::CatalogTrustFilter::All => "all"@,
            crate::mcp_overlay::types::CatalogTrustFilter::Community => "community+"@,
            crate::mcp_overlay::types::CatalogTrustFilter::Verified => "verified"@,
        }),
{
    let kw = trim(o.catalog_keyword.as_str());
    let keyword = if kw.as_str().unicode_len() == 0 { copy_str("*") } else { clip(kw.as_str(), 18) };
    let visible = u64_to_string(o.visible_catalog_len() as u64);
    let total = u64_to_string(o.catalog.len() as u64);
    let a = concat("catalog: ", visible.as_str());
    let b = concat(concat(a.as_str(), "/").as_str(), total.as_str());
    let c = concat(concat(b.as_str(), "  search:").as_str(), keyword.as_str());
    concat(concat(c.as_str(), "  trust:").as_str(), o.catalog_trust_filter.label())
}

/// Title of a tab.
pub open spec fn tab_label_spec(t: McpOverlayTab) -> Seq<char> {
    match t {
        McpOverlayTab::Runtime => "Runtime"@,
        McpOverlayTab::Settings => "Settings"@,
        McpOverlayTab::Installed => "Installed"@,
        McpOverlayTab::Catalog => "Catalog"@,
        McpOverlayTab::Sources => "Sources"@,
        McpOverlayTab::Tools => "Tools"@,
        McpOverlayTab::Resources => "Resources"@,
        McpOverlayTab::Prompts => "Prompts"@,
    }
}

/// A tab's title in the tab bar, yellow and bold for the current tab, then
/// a space.
pub open spec fn tab_spans(current: McpOverlayTab, t: McpOverlayTab) -> Seq<SpanView> {
    seq![
        SpanView {
            text: " "@ + tab_label_spec(t) + " "@,
            style: if t == current { SpanStyle { fg: Some(Tone::Yellow), bold: true, dim: false } } else { fg(Tone::DarkGray) },
        },
        SpanView { text: " "@, style: plain() },
    ]
}

fn push_tab(spans: &mut Vec<StyledSpan>, current: McpOverlayTab, t: McpOverlayTab)
    ensures
        line_view(final(spans)@) == line_view(old(spans)@) + tab_spans(current, t),
{
    let style = if t == current { SpanStyle { fg: Some(Tone::Yellow), bold: true, dim: false } } else { style_fg(Tone::DarkGray) };
    spans.push(span(concat(concat(" ", t.label()).as_str(), " "), style));
    spans.push(span(copy_str(" "), style_plain()));
    assert(line_view(spans@) =~= line_view(old(spans)@) + tab_spans(current, t));
}

/// The tab bar: every tab in order, then the catalog summary in cyan on
/// the catalog tab or while a catalog filter is active.
pub open spec fn tab_bar_spec(o: McpOverlay, filters_active: bool, summary: Seq<char>) -> Seq<SpanView> {
    let c = o.tab;
    let tabs = tab_spans(c, McpOverlayTab::Runtime) + tab_spans(c, McpOverlayTab::Settings)
        + tab_spans(c, McpOverlayTab::Installed) + tab_spans(c, McpOverlayTab::Catalog)
        + tab_spans(c, McpOverlayTab::Sources) + tab_spans(c, McpOverlayTab::Tools)
        + tab_spans(c, McpOverlayTab::Resources) + tab_spans(c, McpOverlayTab::Prompts);
    if c == McpOverlayTab::Catalog || filters_active {
        tabs.push(SpanView { text: summary, style: fg(Tone::Cyan) })
    } else {
        tabs
    }
}

/// The tab bar.
pub fn tab_bar_line(o: &McpOverlay) -> (r: Vec<StyledSpan>)
    ensures
        line_view(r@) == tab_bar_spec(
            *o,
            !is_blank(o.catalog_keyword@) || o.catalog_trust_filter != crate::mcp_overlay::types::CatalogTrustFilter::All
                || exists|i: int| 0 <= i < o.catalog@.len() && !crate::mcp_overlay::state::source_enabled_spec(
                o.sources@,
                #[trigger] o.catalog@[i].source@,
            ),
            catalog_summary_spec(*o, match o.catalog_trust_filter {
                crate::mcp_overlay::types::CatalogTrustFilter::All => "all"@,
                crate::mcp_overlay::types::CatalogTrustFilter::Community => "community+"@,
                crate::mcp_overlay::types::CatalogTrustFilter::Verified => "verified"@,
            }),
        ),
{
    let c = o.tab;
    let mut spans: Vec<StyledSpan> = Vec::new();
    assert(line_view(spans@) =~= Seq::<SpanView>::empty());
    push_tab(&mut spans, c, McpOverlayTab::Runtime);
    push_tab(&mut spans, c, McpOverlayTab::Settings);
    push_tab(&mut spans, c, McpOverlayTab::Installed);
    push_tab(&mut spans, c, McpOverlayTab::Catalog);
    push_tab(&mut spans, c, McpOverlayTab::Sources);
    push_tab(&mut spans, c, McpOverlayTab::Tools);
    push_tab(&mut spans, c, McpOverlayTab::Resources);
    push_tab(&mut spans, c, McpOverlayTab::Prompts);
    let ghost before = line_view(spans@);
    if c == McpOverlayTab::Catalog || o.catalog_filters_active() {
        spans.push(span(catalog_summary(o), style_fg(Tone::Cyan)));
        assert(line_view(spans@) =~= before.push(line_view(spans@).last()));
    }
    spans
}

/// The heading of the install configuration form: the entry's name, cut
/// to 64 characters, after a cyan bold label, then a grey reminder to fill
/// the required values.
pub open spec fn install_header_spec(d: CatalogInstallDraft) -> Seq<Seq<SpanView>> {
    seq![
        seq![
            SpanView {
                text: "Install configuration: "@,
                style: SpanStyle { fg: Some(Tone::Cyan), bold: true, dim: false },
            },
            SpanView { text: clip_seq(d.display_name@, 64), style: plain() },
        ],
        one("Fill required MCP catalog values before installing"@, fg(Tone::DarkGray)),
    ]
}

/// The heading of the install configuration form.
pub fn install_header_lines(d: &CatalogInstallDraft) -> (r: Vec<Vec<StyledSpan>>)
    ensures
        lines_view(r@) == install_header_spec(*d),
{
    let ghost spec = install_header_spec(*d);
    let mut lines: Vec<Vec<StyledSpan>> = Vec::new();
    assert(lines_view(lines@) =~= Seq::<Seq<SpanView>>::empty());
    let mut title: Vec<StyledSpan> = Vec::new();
    title.push(span(
        copy_str("Install configuration: "),
        SpanStyle { fg: Some(Tone::Cyan), bold: true, dim: false },
    ));
    title.push(span(clip(d.display_name.as_str(), 64), style_plain()));
    assert(line_view(title@) =~= spec[0]);
    push_line(&mut lines, title);
    push_line(
        &mut lines,
        one_line(copy_str("Fill required MCP catalog values before installing"), style_fg(Tone::DarkGray)),
    );
    assert(lines_view(lines@) =~~= spec);
    lines
}

} // verus!
