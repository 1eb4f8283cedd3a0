//! What the plugin overlay draws, as styled text.

use vstd::prelude::*;

use crate::mcp_overlay::view::bold;
use crate::plugin_overlay::state::{marketplace_label_spec, PluginOverlay};
use crate::plugin_overlay::types::{
    ConfigScope, PluginCatalogEntry, PluginInstallTarget, PluginMarketplaceSourceView,
    PluginOverlayMode, PluginSettingsView, PluginTab,
};
use crate::styled::{fg, line_view, plain, span, style_bold, style_fg, style_plain, SpanView, StyledSpan, Tone};
use crate::text::{concat, copy_str, decimal_seq, is_blank, trim, trim_seq, u64_to_string};

verus! {

/// Name of an install target.
pub open spec fn target_label_spec(t: PluginInstallTarget) -> Seq<char> {
    match t {
        PluginInstallTarget::User => "user"@,
        PluginInstallTarget::Project => "project"@,
    }
}

/// Name of an install target.
pub fn target_label(t: PluginInstallTarget) -> (r: &'static str)
    ensures
        r@ == target_label_spec(t),
{
    match t {
        PluginInstallTarget::User => "user",
        PluginInstallTarget::Project => "project",
    }
}

/// Name of a scope.
pub open spec fn scope_label_spec(s: ConfigScope) -> Seq<char> {
    match s {
        ConfigScope::Builtin => "builtin"@,
        ConfigScope::User => "user"@,
        ConfigScope::Project => "project"@,
    }
}

/// The spans of an installed plugin row: enabled state, settings id,
/// description, then scope, effective and validity flags and the counts of
/// skills, MCP servers, agents and hooks.
pub open spec fn installed_row_spec(p: PluginSettingsView) -> Seq<SpanView> {
    seq![
        SpanView { text: if p.enabled { "enabled "@ } else { "disabled"@ }, style: fg(if p.enabled { Tone::Green } else { Tone::DarkGray }) },
        SpanView { text: "  "@, style: plain() },
        SpanView { text: p.settings_id@, style: bold() },
        SpanView { text: "  "@, style: plain() },
        SpanView { text: p.description@, style: fg(Tone::Gray) },
        SpanView {
            text: " ["@ + scope_label_spec(p.scope) + (if p.effective { " effective"@ } else { Seq::empty() })
                + (if p.valid { Seq::empty() } else { " invalid"@ }) + " s:"@ + decimal_seq(p.inventory.skill_count as nat)
                + " mcp:"@ + decimal_seq(p.inventory.mcp_server_count as nat) + " a:"@
                + decimal_seq(p.inventory.agent_count as nat) + " h:"@ + decimal_seq(p.inventory.hook_count as nat) + "]"@,
            style: fg(Tone::DarkGray),
        },
    ]
}

/// The spans of an installed plugin row.
pub fn installed_row_line(p: &PluginSettingsView) -> (r: Vec<StyledSpan>)
    ensures
        line_view(r@) == installed_row_spec(*p),
{
    let mut flags = concat(" [", p.scope.label());
    if p.effective {
        flags = concat(flags.as_str(), " effective");
    }
    if !p.valid {
        flags = concat(flags.as_str(), " invalid");
    }
    let s = u64_to_string(p.inventory.skill_count as u64);
    let m = u64_to_string(p.inventory.mcp_server_count as u64);
    let a = u64_to_string(p.inventory.agent_count as u64);
    let h = u64_to_string(p.inventory.hook_count as u64);
    flags = concat(concat(flags.as_str(), " s:").as_str(), s.as_str());
    flags = concat(concat(flags.as_str(), " mcp:").as_str(), m.as_str());
    flags = concat(concat(flags.as_str(), " a:").as_str(), a.as_str());
    flags = concat(concat(flags.as_str(), " h:").as_str(), h.as_str());
    flags = concat(flags.as_str(), "]");
    let mut spans: Vec<StyledSpan> = Vec::new();
    spans.push(span(copy_str(if p.enabled { "enabled " } else { "disabled" }), style_fg(if p.enabled { Tone::Green } else { Tone::DarkGray })));
    spans.push(span(copy_str("  "), style_plain()));
    spans.push(span(p.settings_id.clone(), style_bold()));
    spans.push(span(copy_str("  "), style_plain()));
    spans.push(span(p.description.clone(), style_fg(Tone::Gray)));
    spans.push(span(flags, style_fg(Tone::DarkGray)));
    assert(line_view(spans@) =~= installed_row_spec(*p));
    spans
}

/// The spans of a catalog row: name, version (`unknown` without one),
/// marketplace, description and install target.
pub open spec fn catalog_row_spec(e: PluginCatalogEntry, target: PluginInstallTarget) -> Seq<SpanView> {
    seq![
        SpanView { text: e.name@, style: bold() },
        SpanView { text: "  v"@ + match e.version { Some(v) => v@, None => "unknown"@ }, style: fg(Tone::DarkGray) },
        SpanView { text: "  @"@ + e.marketplace_id@, style: fg(Tone::Cyan) },
        SpanView { text: "  "@, style: plain() },
        SpanView { text: e.description@, style: fg(Tone::Gray) },
        SpanView { text: "  -> "@ + target_label_spec(target), style: fg(Tone::Magenta) },
    ]
}

/// The spans of a catalog row.
pub fn catalog_row_line(e: &PluginCatalogEntry, target: PluginInstallTarget) -> (r: Vec<StyledSpan>)
    ensures
        line_view(r@) == catalog_row_spec(*e, target),
{
    let version = match &e.version {
        Some(v) => concat("  v", v.as_str()),
        None => concat("  v", "unknown"),
    };
    let mut spans: Vec<StyledSpan> = Vec::new();
    spans.push(span(e.name.clone(), style_bold()));
    spans.push(span(version, style_fg(Tone::DarkGray)));
    spans.push(span(concat("  @", e.marketplace_id.as_str()), style_fg(Tone::Cyan)));
    spans.push(span(copy_str("  "), style_plain()));
    spans.push(span(e.description.clone(), style_fg(Tone::Gray)));
    spans.push(span(concat("  -> ", target_label(target)), style_fg(Tone::Magenta)));
    assert(line_view(spans@) =~= catalog_row_spec(*e, target));
    spans
}

/// The spans of a marketplace source row: enabled state, id, kind and
/// location.
pub open spec fn source_row_spec(s: PluginMarketplaceSourceView) -> Seq<SpanView> {
    seq![
        SpanView { text: if s.enabled { "enabled "@ } else { "disabled"@ }, style: fg(if s.enabled { Tone::Green } else { Tone::DarkGray }) },
        SpanView { text: "  "@, style: plain() },
        SpanView { text: s.id@, style: bold() },
        SpanView { text: "  "@ + if s.builtin { "builtin"@ } else { "user"@ }, style: fg(Tone::DarkGray) },
        SpanView { text: "  "@, style: plain() },
        SpanView { text: s.source@, style: fg(Tone::Gray) },
    ]
}

/// The spans of a marketplace source row.
pub fn source_row_line(s: &PluginMarketplaceSourceView) -> (r: Vec<StyledSpan>)
    ensures
        line_view(r@) == source_row_spec(*s),
{
    let mut spans: Vec<StyledSpan> = Vec::new();
    spans.push(span(copy_str(if s.enabled { "enabled " } else { "disabled" }), style_fg(if s.enabled { Tone::Green } else { Tone::DarkGray })));
    spans.push(span(copy_str("  "), style_plain()));
    spans.push(span(s.id.clone(), style_bold()));
    spans.push(span(concat("  ", if s.builtin { "builtin" } else { "user" }), style_fg(Tone::DarkGray)));
    spans.push(span(copy_str("  "), style_plain()));
    spans.push(span(s.source.clone(), style_fg(Tone::Gray)));
    assert(line_view(spans@) =~= source_row_spec(*s));
    spans
}

/// The catalog summary of the tab bar: entry count, keyword (`*` when
/// blank) and marketplace filter.
pub open spec fn catalog_summary_spec(o: PluginOverlay) -> Seq<char> {
    "catalog:"@ + decimal_seq(o.catalog@.len()) + "  search:"@
        + (if is_blank(o.catalog_keyword@) { "*"@ } else { trim_seq(o.catalog_keyword@) }) + "  source:"@
        + marketplace_label_spec(o)
}

/// The catalog summary of the tab bar.
pub fn catalog_summary(o: &PluginOverlay) -> (r: String)
    ensures
        r@ == catalog_summary_spec(*o),
{
    let count = u64_to_string(o.catalog.len() as u64);
    let kw = trim(o.catalog_keyword.as_str());
    let keyword = if kw.as_str().unicode_len() == 0 { copy_str("*") } else { kw };
    let label = o.catalog_marketplace_label();
    let a = concat(concat("catalog:", count.as_str()).as_str(), "  search:");
    let b = concat(concat(a.as_str(), keyword.as_str()).as_str(), "  source:");
    concat(b.as_str(), label.as_str())
}

/// The key hints of the current tab, or of the catalog search.
pub fn hints_action(o: &PluginOverlay) -> (r: &'static str)
    ensures
        r@ == if o.mode == PluginOverlayMode::CatalogSearch {
            "[Enter/Esc] apply search  [Backspace] edit  "@
        } else {
            match o.tab {
                PluginTab::Installed => "[e] enable  [x] delete  "@,
                PluginTab::Catalog => "[/] search  [s] source  [i] install  [t] target  "@,
                PluginTab::Sources => "[e] enable source  "@,
            }
        },
{
    if o.mode == PluginOverlayMode::CatalogSearch {
        "[Enter/Esc] apply search  [Backspace] edit  "
    } else {
        match o.tab {
            PluginTab::Installed => "[e] enable  [x] delete  ",
            PluginTab::Catalog => "[/] search  [s] source  [i] install  [t] target  ",
            PluginTab::Sources => "[e] enable source  ",
        }
    }
}

} // verus!
