//! Data of the model overlay: profiles as the overlay receives them, the
//! settings it saves, and the profile editor's form.

use vstd::prelude::*;

use crate::text::{
    copy_str, is_blank, parse_u64, parse_u64_seq, pop_char, pop_seq, push_char, trim,
    trim_option, trim_seq, u64_to_string, decimal_seq,
};

verus! {

/// A model profile. Sampling values that are fractions (temperature and
/// top-p) are carried as the text they are shown with.
#[derive(Debug, PartialEq, Eq)]
pub struct ModelProfileEntry {
    pub alias: String,
    pub provider_display: String,
    pub model_display: String,
    pub context_window: Option<u64>,
    pub output_limit: Option<u64>,
    pub temperature: Option<String>,
    pub top_p: Option<String>,
    pub top_k: Option<u64>,
    pub max_tokens: Option<u64>,
    pub base_url: Option<String>,
    pub api_key_env: Option<String>,
    pub supports_reasoning: bool,
    pub enabled: bool,
    pub writable: bool,
    pub source: String,
    pub has_api_key: bool,
}

/// What the overlay shows when it opens.
#[derive(Debug, PartialEq, Eq)]
pub struct ModelOverlaySnapshot {
    pub profiles: Vec<ModelProfileEntry>,
    pub current_alias: Option<String>,
    pub current_effort: Option<String>,
}

/// Result of testing a profile.
#[derive(Debug, PartialEq, Eq)]
pub struct ModelProfileTestResult {
    pub alias: String,
    pub ok: bool,
    pub message: Option<String>,
}

/// Settings of a profile to save. Temperature and top-p are the trimmed
/// texts that were typed, to be read as numbers where they are used.
#[derive(Debug, PartialEq, Eq)]
pub struct ProfileSettingsInput {
    pub alias: String,
    pub provider: String,
    pub model_id: String,
    pub enabled: bool,
    pub context_window: Option<u64>,
    pub output_limit: Option<u64>,
    pub temperature: Option<String>,
    pub top_p: Option<String>,
    pub top_k: Option<u64>,
    pub max_tokens: Option<u64>,
    pub base_url: Option<String>,
    pub api_key_env: Option<String>,
}

/// Which list of the overlay takes the navigation keys.
#[derive(Debug, Clone, Copy, PartialEq, Eq, Structural)]
pub enum OverlayFocus {
    ProfileList,
    EffortList,
}

/// What the overlay is doing.
#[derive(Debug, Clone, Copy, PartialEq, Eq, Structural)]
pub enum OverlayMode {
    List,
    Editor,
}

/// Fields of the profile editor.
#[derive(Debug, Clone, Copy, PartialEq, Eq, Structural)]
pub enum ProfileEditorField {
    Alias,
    Provider,
    ModelId,
    BaseUrl,
    ApiKeyEnv,
    ContextWindow,
    OutputLimit,
    Temperature,
    TopP,
    TopK,
    MaxTokens,
    Enabled,
}

/// Fields of the profile editor, in order.
pub const PROFILE_EDITOR_FIELDS: [ProfileEditorField; 12] = [
    ProfileEditorField::Alias,
    ProfileEditorField::Provider,
    ProfileEditorField::ModelId,
    ProfileEditorField::BaseUrl,
    ProfileEditorField::ApiKeyEnv,
    ProfileEditorField::ContextWindow,
    ProfileEditorField::OutputLimit,
    ProfileEditorField::Temperature,
    ProfileEditorField::TopP,
    ProfileEditorField::TopK,
    ProfileEditorField::MaxTokens,
    ProfileEditorField::Enabled,
];

/// The profile editor's field at a cursor position.
pub open spec fn profile_field_at(i: usize) -> ProfileEditorField {
    if i == 0 { ProfileEditorField::Alias }
    else if i == 1 { ProfileEditorField::Provider }
    else if i == 2 { ProfileEditorField::ModelId }
    else if i == 3 { ProfileEditorField::BaseUrl }
    else if i == 4 { ProfileEditorField::ApiKeyEnv }
    else if i == 5 { ProfileEditorField::ContextWindow }
    else if i == 6 { ProfileEditorField::OutputLimit }
    else if i == 7 { ProfileEditorField::Temperature }
    else if i == 8 { ProfileEditorField::TopP }
    else if i == 9 { ProfileEditorField::TopK }
    else if i == 10 { ProfileEditorField::MaxTokens }
    else { ProfileEditorField::Enabled }
}

/// The profile editor's form.
#[derive(Debug, PartialEq, Eq)]
pub struct ProfileDraft {
    pub alias: String,
    pub provider: String,
    pub model_id: String,
    pub base_url: String,
    pub api_key_env: String,
    pub context_window: String,
    pub output_limit: String,
    pub temperature: String,
    pub top_p: String,
    pub top_k: String,
    pub max_tokens: String,
    pub enabled: bool,
    pub alias_editable: bool,
}

/// The form with its texts as characters.
pub struct ProfileDraftView {
    pub alias: Seq<char>,
    pub provider: Seq<char>,
    pub model_id: Seq<char>,
    pub base_url: Seq<char>,
    pub api_key_env: Seq<char>,
    pub context_window: Seq<char>,
    pub output_limit: Seq<char>,
    pub temperature: Seq<char>,
    pub top_p: Seq<char>,
    pub top_k: Seq<char>,
    pub max_tokens: Seq<char>,
    pub enabled: bool,
    pub alias_editable: bool,
}

impl View for ProfileDraft {
    type V = ProfileDraftView;

    open spec fn view(&self) -> ProfileDraftView {
        ProfileDraftView {
            alias: self.alias@,
            provider: self.provider@,
            model_id: self.model_id@,
            base_url: self.base_url@,
            api_key_env: self.api_key_env@,
            context_window: self.context_window@,
            output_limit: self.output_limit@,
            temperature: self.temperature@,
            top_p: self.top_p@,
            top_k: self.top_k@,
            max_tokens: self.max_tokens@,
            enabled: self.enabled,
            alias_editable: self.alias_editable,
        }
    }
}

/// The empty form: enabled, alias editable.
pub open spec fn empty_draft() -> ProfileDraftView {
    ProfileDraftView {
        alias: Seq::empty(),
        provider: Seq::empty(),
        model_id: Seq::empty(),
        base_url: Seq::empty(),
        api_key_env: Seq::empty(),
        context_window: Seq::empty(),
        output_limit: Seq::empty(),
        temperature: Seq::empty(),
        top_p: Seq::empty(),
        top_k: Seq::empty(),
        max_tokens: Seq::empty(),
        enabled: true,
        alias_editable: true,
    }
}

/// An optional number as text, empty when absent.
pub open spec fn opt_num_text(v: Option<u64>) -> Seq<char> {
    match v {
        Some(n) => decimal_seq(n as nat),
        None => Seq::empty(),
    }
}

/// An optional text, empty when absent.
pub open spec fn opt_text(v: Option<String>) -> Seq<char> {
    match v {
        Some(t) => t@,
        None => Seq::empty(),
    }
}

/// The form that edits a profile: its values as text, the alias locked.
pub open spec fn draft_of_entry(e: ModelProfileEntry) -> ProfileDraftView {
    ProfileDraftView {
        alias: e.alias@,
        provider: e.provider_display@,
        model_id: e.model_display@,
        base_url: opt_text(e.base_url),
        api_key_env: opt_text(e.api_key_env),
        context_window: opt_num_text(e.context_window),
        output_limit: opt_num_text(e.output_limit),
        temperature: opt_text(e.temperature),
        top_p: opt_text(e.top_p),
        top_k: opt_num_text(e.top_k),
        max_tokens: opt_num_text(e.max_tokens),
        enabled: e.enabled,
        alias_editable: false,
    }
}

/// The form that holds given settings, the alias editable.
pub open spec fn draft_of_input(i: ProfileSettingsInput) -> ProfileDraftView {
    ProfileDraftView {
        alias: i.alias@,
        provider: i.provider@,
        model_id: i.model_id@,
        base_url: opt_text(i.base_url),
        api_key_env: opt_text(i.api_key_env),
        context_window: opt_num_text(i.context_window),
        output_limit: opt_num_text(i.output_limit),
        temperature: opt_text(i.temperature),
        top_p: opt_text(i.top_p),
        top_k: opt_num_text(i.top_k),
        max_tokens: opt_num_text(i.max_tokens),
        enabled: i.enabled,
        alias_editable: true,
    }
}

/// The enabled flag after a key on the Enabled field: y/1/t set it, n/0/f
/// clear it, space toggles it, other keys leave it.
pub open spec fn enabled_after(enabled: bool, ch: char) -> bool {
    if ch == 'y' || ch == 'Y' || ch == '1' || ch == 't' || ch == 'T' {
        true
    } else if ch == 'n' || ch == 'N' || ch == '0' || ch == 'f' || ch == 'F' {
        false
    } else if ch == ' ' {
        !enabled
    } else {
        enabled
    }
}

/// The form after a text edit `g` of `field`; the alias only while it is
/// editable, the Enabled field by `on_enabled`.
pub open spec fn draft_edit(d: ProfileDraftView, field: ProfileEditorField, g: spec_fn(Seq<char>) -> Seq<char>, on_enabled: bool) -> ProfileDraftView {
    match field {
        ProfileEditorField::Alias => if d.alias_editable { ProfileDraftView { alias: g(d.alias), ..d } } else { d },
        ProfileEditorField::Provider => ProfileDraftView { provider: g(d.provider), ..d },
        ProfileEditorField::ModelId => ProfileDraftView { model_id: g(d.model_id), ..d },
        ProfileEditorField::BaseUrl => ProfileDraftView { base_url: g(d.base_url), ..d },
        ProfileEditorField::ApiKeyEnv => ProfileDraftView { api_key_env: g(d.api_key_env), ..d },
        ProfileEditorField::ContextWindow => ProfileDraftView { context_window: g(d.context_window), ..d },
        ProfileEditorField::OutputLimit => ProfileDraftView { output_limit: g(d.output_limit), ..d },
        ProfileEditorField::Temperature => ProfileDraftView { temperature: g(d.temperature), ..d },
        ProfileEditorField::TopP => ProfileDraftView { top_p: g(d.top_p), ..d },
        ProfileEditorField::TopK => ProfileDraftView { top_k: g(d.top_k), ..d },
        ProfileEditorField::MaxTokens => ProfileDraftView { max_tokens: g(d.max_tokens), ..d },
        ProfileEditorField::Enabled => ProfileDraftView { enabled: on_enabled, ..d },
    }
}

/// The form after typing `ch` into `field`.
pub open spec fn profile_push_spec(d: ProfileDraftView, field: ProfileEditorField, ch: char) -> ProfileDraftView {
    draft_edit(d, field, |s: Seq<char>| s.push(ch), enabled_after(d.enabled, ch))
}

/// The form after Backspace in `field`.
pub open spec fn profile_backspace_spec(d: ProfileDraftView, field: ProfileEditorField) -> ProfileDraftView {
    draft_edit(d, field, |s: Seq<char>| pop_seq(s), d.enabled)
}

/// The form after Delete in `field`: the field's text is cleared.
pub open spec fn profile_clear_spec(d: ProfileDraftView, field: ProfileEditorField) -> ProfileDraftView {
    draft_edit(d, field, |s: Seq<char>| Seq::<char>::empty(), d.enabled)
}

/// An optional number typed as text: nothing when blank, otherwise the
/// trimmed text read as a number (nothing when it does not read).
pub open spec fn parse_optional_spec(s: Seq<char>) -> Option<u64> {
    if is_blank(s) { None } else { parse_u64_seq(trim_seq(s)) }
}

/// An optional text typed: nothing when blank, otherwise trimmed.
pub open spec fn trim_option_spec(s: Seq<char>, r: Option<String>) -> bool {
    match r {
        None => is_blank(s),
        Some(t) => !is_blank(s) && t@ == trim_seq(s),
    }
}

/// The form can be saved: alias, provider and model are not blank.
pub open spec fn profile_ready(d: ProfileDraftView) -> bool {
    !is_blank(d.alias) && !is_blank(d.provider) && !is_blank(d.model_id)
}

/// The settings a ready form saves.
pub open spec fn profile_input_ok(d: ProfileDraftView, i: ProfileSettingsInput) -> bool {
    &&& i.alias@ == trim_seq(d.alias)
    &&& i.provider@ == trim_seq(d.provider)
    &&& i.model_id@ == trim_seq(d.model_id)
    &&& i.enabled == d.enabled
    &&& i.context_window == parse_optional_spec(d.context_window)
    &&& i.output_limit == parse_optional_spec(d.output_limit)
    &&& trim_option_spec(d.temperature, i.temperature)
    &&& trim_option_spec(d.top_p, i.top_p)
    &&& i.top_k == parse_optional_spec(d.top_k)
    &&& i.max_tokens == parse_optional_spec(d.max_tokens)
    &&& trim_option_spec(d.base_url, i.base_url)
    &&& trim_option_spec(d.api_key_env, i.api_key_env)
}

/// An optional number as text.
pub fn format_optional(v: Option<u64>) -> (r: String)
    ensures
        r@ == opt_num_text(v),
{
    match v {
        Some(n) => u64_to_string(n),
        None => String::new(),
    }
}

/// An optional number typed as text.
pub fn parse_optional(s: &str) -> (r: Option<u64>)
    ensures
        r == parse_optional_spec(s@),
{
    let t = trim(s);
    if t.as_str().unicode_len() == 0 {
        None
    } else {
        parse_u64(t.as_str())
    }
}

/// A copy of an optional text, empty when absent.
fn text_or_empty(v: &Option<String>) -> (r: String)
    ensures
        r@ == opt_text(*v),
{
    match v {
        Some(t) => t.clone(),
        None => String::new(),
    }
}

/// Applies a text edit to one field of the form.
fn edit_text(s: &mut String, op: u8, ch: char)
    requires
        op < 3,
    ensures
        op == 0 ==> final(s)@ == old(s)@.push(ch),
        op == 1 ==> final(s)@ == pop_seq(old(s)@),
        op == 2 ==> final(s)@ == Seq::<char>::empty(),
{
    if op == 0 {
        push_char(s, ch);
    } else if op == 1 {
        pop_char(s);
    } else {
        *s = String::new();
    }
}

impl ProfileDraft {
    /// The empty form.
    pub fn new() -> (d: ProfileDraft)
        ensures
            d@ == empty_draft(),
    {
        ProfileDraft {
            alias: String::new(),
            provider: String::new(),
            model_id: String::new(),
            base_url: String::new(),
            api_key_env: String::new(),
            context_window: String::new(),
            output_limit: String::new(),
            temperature: String::new(),
            top_p: String::new(),
            top_k: String::new(),
            max_tokens: String::new(),
            enabled: true,
            alias_editable: true,
        }
    }

    /// The form that edits a profile.
    pub fn from_entry(e: &ModelProfileEntry) -> (d: ProfileDraft)
        ensures
            d@ == draft_of_entry(*e),
    {
        ProfileDraft {
            alias: e.alias.clone(),
            provider: e.provider_display.clone(),
            model_id: e.model_display.clone(),
            base_url: text_or_empty(&e.base_url),
            api_key_env: text_or_empty(&e.api_key_env),
            context_window: format_optional(e.context_window),
            output_limit: format_optional(e.output_limit),
            temperature: text_or_empty(&e.temperature),
            top_p: text_or_empty(&e.top_p),
            top_k: format_optional(e.top_k),
            max_tokens: format_optional(e.max_tokens),
            enabled: e.enabled,
            alias_editable: false,
        }
    }

    /// The form that holds given settings.
    pub fn from_input(i: ProfileSettingsInput) -> (d: ProfileDraft)
        ensures
            d@ == draft_of_input(i),
    {
        ProfileDraft {
            alias: i.alias,
            provider: i.provider,
            model_id: i.model_id,
            base_url: text_or_empty(&i.base_url),
            api_key_env: text_or_empty(&i.api_key_env),
            context_window: format_optional(i.context_window),
            output_limit: format_optional(i.output_limit),
            temperature: text_or_empty(&i.temperature),
            top_p: text_or_empty(&i.top_p),
            top_k: format_optional(i.top_k),
            max_tokens: format_optional(i.max_tokens),
            enabled: i.enabled,
            alias_editable: true,
        }
    }

    /// The settings to save, or nothing when the form is not ready.
    pub fn to_input(&self) -> (r: Option<ProfileSettingsInput>)
        ensures
            r is Some <==> profile_ready(self@),
            r matches Some(i) ==> profile_input_ok(self@, i),
    {
        let alias = trim(self.alias.as_str());
        let provider = trim(self.provider.as_str());
        let model_id = trim(self.model_id.as_str());
        if alias.as_str().unicode_len() == 0 || provider.as_str().unicode_len() == 0
            || model_id.as_str().unicode_len() == 0 {
            return None;
        }
        Some(ProfileSettingsInput {
            alias,
            provider,
            model_id,
            enabled: self.enabled,
            context_window: parse_optional(self.context_window.as_str()),
            output_limit: parse_optional(self.output_limit.as_str()),
            temperature: trim_option(self.temperature.as_str()),
            top_p: trim_option(self.top_p.as_str()),
            top_k: parse_optional(self.top_k.as_str()),
            max_tokens: parse_optional(self.max_tokens.as_str()),
            base_url: trim_option(self.base_url.as_str()),
            api_key_env: trim_option(self.api_key_env.as_str()),
        })
    }

    /// Applies edit `op` (type, erase, clear) to `field`.
    fn edit(&mut self, field: ProfileEditorField, op: u8, ch: char)
        requires
            op < 3,
        ensures
            op == 0 ==> final(self)@ == profile_push_spec(old(self)@, field, ch),
            op == 1 ==> final(self)@ == profile_backspace_spec(old(self)@, field),
            op == 2 ==> final(self)@ == profile_clear_spec(old(self)@, field),
    {
        match field {
            ProfileEditorField::Alias => {
                if self.alias_editable {
                    edit_text(&mut self.alias, op, ch);
                }
            },
            ProfileEditorField::Provider => edit_text(&mut self.provider, op, ch),
            ProfileEditorField::ModelId => edit_text(&mut self.model_id, op, ch),
            ProfileEditorField::BaseUrl => edit_text(&mut self.base_url, op, ch),
            ProfileEditorField::ApiKeyEnv => edit_text(&mut self.api_key_env, op, ch),
            ProfileEditorField::ContextWindow => edit_text(&mut self.context_window, op, ch),
            ProfileEditorField::OutputLimit => edit_text(&mut self.output_limit, op, ch),
            ProfileEditorField::Temperature => edit_text(&mut self.temperature, op, ch),
            ProfileEditorField::TopP => edit_text(&mut self.top_p, op, ch),
            ProfileEditorField::TopK => edit_text(&mut self.top_k, op, ch),
            ProfileEditorField::MaxTokens => edit_text(&mut self.max_tokens, op, ch),
            ProfileEditorField::Enabled => {
                if op == 0 {
                    if ch == 'y' || ch == 'Y' || ch == '1' || ch == 't' || ch == 'T' {
                        self.enabled = true;
                    } else if ch == 'n' || ch == 'N' || ch == '0' || ch == 'f' || ch == 'F' {
                        self.enabled = false;
                    } else if ch == ' ' {
                        self.enabled = !self.enabled;
                    }
                }
            },
        }
    }

    /// Types a character into a field.
    pub fn push_char(&mut self, field: ProfileEditorField, ch: char)
        ensures
            final(self)@ == profile_push_spec(old(self)@, field, ch),
    {
        self.edit(field, 0, ch);
    }

    /// Erases the last character of a field.
    pub fn backspace(&mut self, field: ProfileEditorField)
        ensures
            final(self)@ == profile_backspace_spec(old(self)@, field),
    {
        self.edit(field, 1, ' ');
    }

    /// Clears a field.
    pub fn clear_field(&mut self, field: ProfileEditorField)
        ensures
            final(self)@ == profile_clear_spec(old(self)@, field),
    {
        self.edit(field, 2, ' ');
    }
}

} // verus!
