//! What the model overlay draws, as styled text: profile rows, effort rows,
//! editor rows and compact token counts.

use vstd::prelude::*;

use crate::mcp_overlay::view::{bold, bool_text, lookup};
use crate::model_overlay::state::{effort_at, ModelOverlay};
use crate::model_overlay::types::{
    profile_field_at, ModelProfileEntry, ModelProfileTestResult, OverlayMode, ProfileDraft,
    ProfileDraftView, ProfileEditorField,
};
use crate::styled::{fg, line_view, plain, span, style_bold, style_fg, style_plain, SpanStyle, SpanView, StyledSpan, Tone};
use crate::text::{concat, copy_str, decimal_seq, pad_right, pad_right_seq, str_eq, u64_to_string};

verus! {

/// A token count written compactly: whole millions as `NM`, whole
/// thousands as `Nk`, counts below a thousand as they are. Other counts of a
/// thousand or more are written with one decimal of thousands, which this
/// function leaves to its caller (`None`).
pub open spec fn token_count_spec(tokens: u64) -> Option<Seq<char>> {
    if tokens >= 1_000_000 && tokens % 1_000_000 == 0 {
        Some(decimal_seq((tokens / 1_000_000) as nat) + "M"@)
    } else if tokens >= 1_000 && tokens % 1_000 == 0 {
        Some(decimal_seq((tokens / 1_000) as nat) + "k"@)
    } else if tokens >= 1_000 {
        None
    } else {
        Some(decimal_seq(tokens as nat))
    }
}

/// A token count written compactly, when it needs no decimal.
pub fn token_count_text(tokens: u64) -> (r: Option<String>)
    ensures
        r is None <==> token_count_spec(tokens) is None,
        r matches Some(t) ==> token_count_spec(tokens) == Some(t@),
{
    if tokens >= 1_000_000 && tokens % 1_000_000 == 0 {
        let n = u64_to_string(tokens / 1_000_000);
        Some(concat(n.as_str(), "M"))
    } else if tokens >= 1_000 && tokens % 1_000 == 0 {
        let n = u64_to_string(tokens / 1_000);
        Some(concat(n.as_str(), "k"))
    } else if tokens >= 1_000 {
        None
    } else {
        Some(u64_to_string(tokens))
    }
}

/// The limits label of a profile from its written context window and
/// output limit: `ctx:C/O`, `ctx:C`, `out:O`, or nothing.
pub open spec fn context_limits_spec(ctx: Option<Seq<char>>, out: Option<Seq<char>>) -> Seq<char> {
    match (ctx, out) {
        (Some(c), Some(o)) => "ctx:"@ + c + "/"@ + o,
        (Some(c), None) => "ctx:"@ + c,
        (None, Some(o)) => "out:"@ + o,
        (None, None) => Seq::empty(),
    }
}

/// The limits label of a profile.
pub fn context_limits_label(ctx: Option<&str>, out: Option<&str>) -> (r: String)
    ensures
        r@ == context_limits_spec(
            match ctx { Some(c) => Some(c@), None => None },
            match out { Some(o) => Some(o@), None => None },
        ),
{
    match (ctx, out) {
        (Some(c), Some(o)) => concat(concat(concat("ctx:", c).as_str(), "/").as_str(), o),
        (Some(c), None) => concat("ctx:", c),
        (None, Some(o)) => concat("out:", o),
        (None, None) => String::new(),
    }
}

/// The test part of a profile row: ok, the failure message, or failed.
pub open spec fn test_tag_spec(r: Option<ModelProfileTestResult>) -> Seq<char> {
    match r {
        None => Seq::empty(),
        Some(t) => if t.ok {
            " test:ok"@
        } else {
            match t.message {
                Some(m) => " test:"@ + m@,
                None => " test:failed"@,
            }
        },
    }
}

/// The spans of a profile row: current marker, enabled state, alias,
/// provider and model, reasoning tag, limits, and source with its flags.
pub open spec fn profile_row_spec(o: ModelOverlay, p: ModelProfileEntry, limits: Seq<char>) -> Seq<SpanView> {
    let current = o.current_alias matches Some(a) && a@ == p.alias@;
    seq![
        SpanView { text: if current { "● "@ } else { "  "@ }, style: fg(Tone::Green) },
        SpanView { text: if p.enabled { "enabled "@ } else { "disabled"@ }, style: fg(if p.enabled { Tone::Green } else { Tone::DarkGray }) },
        SpanView { text: "  "@, style: plain() },
        SpanView { text: p.alias@, style: bold() },
        SpanView { text: "  "@ + p.provider_display@ + "/"@ + p.model_display@, style: fg(Tone::DarkGray) },
        SpanView { text: if p.supports_reasoning { " [R]"@ } else { Seq::empty() }, style: fg(Tone::Magenta) },
        SpanView { text: "  "@ + limits, style: fg(Tone::Cyan) },
        SpanView {
            text: "  ["@ + p.source@ + (if p.writable { " writable"@ } else { " read-only"@ })
                + (if p.has_api_key { " key"@ } else { " no-key"@ })
                + test_tag_spec(lookup(o.test_results.map(), p.alias@)) + "]"@,
            style: fg(Tone::DarkGray),
        },
    ]
}

/// The spans of a profile row, given its limits label.
pub fn profile_row_line(o: &ModelOverlay, p: &ModelProfileEntry, limits: &str) -> (r: Vec<StyledSpan>)
    requires
        o.wf(),
    ensures
        line_view(r@) == profile_row_spec(*o, *p, limits@),
{
    let current = match &o.current_alias {
        Some(a) => str_eq(a.as_str(), p.alias.as_str()),
        None => false,
    };
    let test_tag = match o.test_results.get(p.alias.as_str()) {
        None => String::new(),
        Some(t) => if t.ok {
            copy_str(" test:ok")
        } else {
            match &t.message {
                Some(m) => concat(" test:", m.as_str()),
                None => copy_str(" test:failed"),
            }
        },
    };
    let models = concat(concat(concat("  ", p.provider_display.as_str()).as_str(), "/").as_str(), p.model_display.as_str());
    let flags = concat(
        concat(concat("  [", p.source.as_str()).as_str(), if p.writable { " writable" } else { " read-only" }).as_str(),
        if p.has_api_key { " key" } else { " no-key" },
    );
    let tail = concat(concat(flags.as_str(), test_tag.as_str()).as_str(), "]");
    let mut spans: Vec<StyledSpan> = Vec::new();
    spans.push(span(copy_str(if current { "● " } else { "  " }), style_fg(Tone::Green)));
    spans.push(span(copy_str(if p.enabled { "enabled " } else { "disabled" }), style_fg(if p.enabled { Tone::Green } else { Tone::DarkGray })));
    spans.push(span(copy_str("  "), style_plain()));
    spans.push(span(p.alias.clone(), style_bold()));
    spans.push(span(models, style_fg(Tone::DarkGray)));
    spans.push(span(if p.supports_reasoning { copy_str(" [R]") } else { String::new() }, style_fg(Tone::Magenta)));
    spans.push(span(concat("  ", limits), style_fg(Tone::Cyan)));
    spans.push(span(tail, style_fg(Tone::DarkGray)));
    assert(line_view(spans@) =~= profile_row_spec(*o, *p, limits@));
    spans
}

/// The spans of an effort row: a marker on the current effort, then the
/// effort.
pub open spec fn effort_row_spec(o: ModelOverlay, effort: Seq<char>) -> Seq<SpanView> {
    let current = o.current_effort matches Some(e) && e@ == effort;
    seq![
        SpanView { text: if current { "● "@ } else { "  "@ }, style: fg(Tone::Green) },
        SpanView { text: effort, style: plain() },
    ]
}

/// The spans of an effort row.
pub fn effort_row_line(o: &ModelOverlay, effort: &str) -> (r: Vec<StyledSpan>)
    ensures
        line_view(r@) == effort_row_spec(*o, effort@),
{
    let current = match &o.current_effort {
        Some(e) => str_eq(e.as_str(), effort),
        None => false,
    };
    let mut spans: Vec<StyledSpan> = Vec::new();
    spans.push(span(copy_str(if current { "● " } else { "  " }), style_fg(Tone::Green)));
    spans.push(span(copy_str(effort), style_plain()));
    assert(line_view(spans@) =~= effort_row_spec(*o, effort@));
    spans
}

/// Label of a profile editor field.
pub open spec fn profile_field_label_spec(f: ProfileEditorField) -> Seq<char> {
    match f {
        ProfileEditorField::Alias => "Alias"@,
        ProfileEditorField::Provider => "Provider"@,
        ProfileEditorField::ModelId => "Model ID"@,
        ProfileEditorField::BaseUrl => "Base URL"@,
        ProfileEditorField::ApiKeyEnv => "API key env"@,
        ProfileEditorField::ContextWindow => "Context"@,
        ProfileEditorField::OutputLimit => "Output"@,
        ProfileEditorField::Temperature => "Temperature"@,
        ProfileEditorField::TopP => "Top P"@,
        ProfileEditorField::TopK => "Top K"@,
        ProfileEditorField::MaxTokens => "Max tokens"@,
        ProfileEditorField::Enabled => "Enabled"@,
    }
}

/// Label of a profile editor field.
pub fn profile_editor_field_label(f: ProfileEditorField) -> (r: &'static str)
    ensures
        r@ == profile_field_label_spec(f),
{
    match f {
        ProfileEditorField::Alias => "Alias",
        ProfileEditorField::Provider => "Provider",
        ProfileEditorField::ModelId => "Model ID",
        ProfileEditorField::BaseUrl => "Base URL",
        ProfileEditorField::ApiKeyEnv => "API key env",
        ProfileEditorField::ContextWindow => "Context",
        ProfileEditorField::OutputLimit => "Output",
        ProfileEditorField::Temperature => "Temperature",
        ProfileEditorField::TopP => "Top P",
        ProfileEditorField::TopK => "Top K",
        ProfileEditorField::MaxTokens => "Max tokens",
        ProfileEditorField::Enabled => "Enabled",
    }
}

/// The value a profile editor field shows.
pub open spec fn profile_field_value_spec(d: ProfileDraftView, f: ProfileEditorField) -> Seq<char> {
    match f {
        ProfileEditorField::Alias => d.alias,
        ProfileEditorField::Provider => d.provider,
        ProfileEditorField::ModelId => d.model_id,
        ProfileEditorField::BaseUrl => d.base_url,
        ProfileEditorField::ApiKeyEnv => d.api_key_env,
        ProfileEditorField::ContextWindow => d.context_window,
        ProfileEditorField::OutputLimit => d.output_limit,
        ProfileEditorField::Temperature => d.temperature,
        ProfileEditorField::TopP => d.top_p,
        ProfileEditorField::TopK => d.top_k,
        ProfileEditorField::MaxTokens => d.max_tokens,
        ProfileEditorField::Enabled => bool_text(d.enabled),
    }
}

/// The value a profile editor field shows.
pub fn profile_editor_field_value(d: &ProfileDraft, f: ProfileEditorField) -> (r: String)
    ensures
        r@ == profile_field_value_spec(d@, f),
{
    match f {
        ProfileEditorField::Alias => d.alias.clone(),
        ProfileEditorField::Provider => d.provider.clone(),
        ProfileEditorField::ModelId => d.model_id.clone(),
        ProfileEditorField::BaseUrl => d.base_url.clone(),
        ProfileEditorField::ApiKeyEnv => d.api_key_env.clone(),
        ProfileEditorField::ContextWindow => d.context_window.clone(),
        ProfileEditorField::OutputLimit => d.output_limit.clone(),
        ProfileEditorField::Temperature => d.temperature.clone(),
        ProfileEditorField::TopP => d.top_p.clone(),
        ProfileEditorField::TopK => d.top_k.clone(),
        ProfileEditorField::MaxTokens => d.max_tokens.clone(),
        ProfileEditorField::Enabled => copy_str(if d.enabled { "true" } else { "false" }),
    }
}

/// The spans of editor row `index`: cursor marker, label padded to 14,
/// value, and a lock note on a locked alias.
pub open spec fn profile_editor_row_spec(o: ModelOverlay, index: usize) -> Seq<SpanView> {
    let f = profile_field_at(index);
    seq![
        SpanView { text: if index == o.editor_field_index { "> "@ } else { "  "@ }, style: fg(Tone::Magenta) },
        SpanView { text: pad_right_seq(profile_field_label_spec(f), 14), style: bold() },
        SpanView { text: " "@, style: plain() },
        SpanView { text: profile_field_value_spec(o.draft@, f), style: fg(Tone::DarkGray) },
        SpanView {
            text: if f == ProfileEditorField::Alias && !o.draft.alias_editable { " (locked)"@ } else { Seq::empty() },
            style: fg(Tone::DarkGray),
        },
    ]
}

/// The spans of a profile editor row.
pub fn profile_editor_row_line(o: &ModelOverlay, index: usize) -> (r: Vec<StyledSpan>)
    requires
        index < 12,
    ensures
        line_view(r@) == profile_editor_row_spec(*o, index),
{
    let f = crate::model_overlay::types::PROFILE_EDITOR_FIELDS[index];
    let locked = f == ProfileEditorField::Alias && !o.draft.alias_editable;
    let mut spans: Vec<StyledSpan> = Vec::new();
    spans.push(span(copy_str(if index == o.editor_field_index { "> " } else { "  " }), style_fg(Tone::Magenta)));
    spans.push(span(pad_right(profile_editor_field_label(f), 14), style_bold()));
    spans.push(span(copy_str(" "), style_plain()));
    spans.push(span(profile_editor_field_value(&o.draft, f), style_fg(Tone::DarkGray)));
    spans.push(span(if locked { copy_str(" (locked)") } else { String::new() }, style_fg(Tone::DarkGray)));
    assert(line_view(spans@) =~= profile_editor_row_spec(*o, index));
    spans
}

/// Title of the overlay by mode.
pub fn overlay_title(o: &ModelOverlay) -> (r: &'static str)
    ensures
        r@ == if o.mode == OverlayMode::List { " Model Profile "@ } else { " Model Profile Editor "@ },
{
    match o.mode {
        OverlayMode::List => " Model Profile ",
        OverlayMode::Editor => " Model Profile Editor ",
    }
}

} // verus!
