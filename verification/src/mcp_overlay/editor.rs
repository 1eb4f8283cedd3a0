//! Editors of the MCP overlay: the server settings form, the catalog
//! source form, and the configuration form of a catalog install.

use vstd::prelude::*;

use crate::mcp_overlay::types::ServerEntry;
use crate::mcp_overlay::types::McpServerSettingsView;
use crate::text::{
    copy_str, is_blank, parse_u32, parse_u32_seq, pop_char, pop_seq, push_char, split_args, str_eq,
    trim, trim_option, trim_seq, views, words_seq,
};
use crate::text_map::TextMap;

verus! {

/// Transport chosen in the server editor.
#[derive(Debug, Clone, Copy, PartialEq, Eq, Structural)]
pub enum ServerTransportDraft {
    Stdio,
    Sse,
    StreamableHttp,
}

/// Fields of the server editor.
#[derive(Debug, Clone, Copy, PartialEq, Eq, Structural)]
pub enum ServerEditorField {
    Name,
    Transport,
    CommandOrUrl,
    Args,
    Description,
    Enabled,
}

/// Fields of the server editor, in tab order.
pub const SERVER_EDITOR_FIELDS: [ServerEditorField; 6] = [
    ServerEditorField::Name,
    ServerEditorField::Transport,
    ServerEditorField::CommandOrUrl,
    ServerEditorField::Args,
    ServerEditorField::Description,
    ServerEditorField::Enabled,
];

/// Fields of the source editor.
#[derive(Debug, Clone, Copy, PartialEq, Eq, Structural)]
pub enum SourceEditorField {
    Id,
    DisplayName,
    Url,
    ApiKeyEnv,
    Priority,
    DefaultTrust,
    Enabled,
}

/// Fields of the source editor, in tab order.
pub const SOURCE_EDITOR_FIELDS: [SourceEditorField; 7] = [
    SourceEditorField::Id,
    SourceEditorField::DisplayName,
    SourceEditorField::Url,
    SourceEditorField::ApiKeyEnv,
    SourceEditorField::Priority,
    SourceEditorField::DefaultTrust,
    SourceEditorField::Enabled,
];

/// How a saved server is reached.
#[derive(Debug, PartialEq, Eq)]
pub enum McpServerSettingsTransport {
    Stdio { command: String, args: Vec<String>, env: TextMap<String> },
    Sse { url: String, headers: TextMap<String> },
    StreamableHttp { url: String, headers: TextMap<String> },
}

/// Server settings to save.
#[derive(Debug, PartialEq, Eq)]
pub struct McpServerSettingsInput {
    pub name: String,
    pub enabled: bool,
    pub description: Option<String>,
    pub transport: McpServerSettingsTransport,
}

/// A catalog source to add.
#[derive(Debug, PartialEq, Eq)]
pub struct AddCatalogSourceRequest {
    pub id: String,
    pub display_name: String,
    pub kind: String,
    pub url: String,
    pub api_key_env: Option<String>,
    pub priority: Option<u32>,
    pub default_trust: Option<String>,
    pub enabled: Option<bool>,
    pub cache_ttl_seconds: Option<u64>,
}

/// A catalog install to run.
#[derive(Debug, PartialEq, Eq)]
pub struct InstallRequest {
    pub source: String,
    pub catalog_id: String,
    pub env_overrides: TextMap<String>,
    pub trust_grant: bool,
    pub auto_start: bool,
    pub server_id_override: Option<String>,
}

/// One environment variable that a catalog entry declares.
#[derive(Debug, PartialEq, Eq)]
pub struct EnvVarSpec {
    pub key: String,
    pub label: String,
    pub description: String,
    pub required: bool,
    pub secret: bool,
    pub default: Option<String>,
}

/// One value that a catalog install asks for: an environment variable, or
/// an HTTP header of a remote server.
#[derive(Debug, PartialEq, Eq)]
pub struct CatalogConfigItem {
    pub key: String,
    pub label: String,
    pub description: String,
    pub kind: String,
    pub required: bool,
    pub secret: bool,
    pub default: Option<String>,
}

impl Clone for CatalogConfigItem {
    fn clone(&self) -> (r: Self)
        ensures
            r == *self,
    {
        CatalogConfigItem {
            key: self.key.clone(),
            label: self.label.clone(),
            description: self.description.clone(),
            kind: self.kind.clone(),
            required: self.required,
            secret: self.secret,
            default: self.default.clone(),
        }
    }
}

/// The server editor's form.
#[derive(Debug, PartialEq, Eq)]
pub struct ServerDraft {
    pub name: String,
    pub transport: ServerTransportDraft,
    pub command: String,
    pub args_text: String,
    pub url: String,
    pub description: String,
    pub enabled: bool,
}

/// The source editor's form.
#[derive(Debug, PartialEq, Eq)]
pub struct SourceDraft {
    pub id: String,
    pub display_name: String,
    pub url: String,
    pub api_key_env: String,
    pub priority: String,
    pub default_trust: String,
    pub enabled: bool,
}

/// The configuration form of a catalog install.
#[derive(Debug, PartialEq, Eq)]
pub struct CatalogInstallDraft {
    pub catalog_id: String,
    pub source: String,
    pub display_name: String,
    pub items: Vec<CatalogConfigItem>,
    pub values: TextMap<String>,
}

/// The transport named by a settings view: `sse`, `streamable_http`, or
/// stdio for anything else.
pub open spec fn transport_of(name: Seq<char>) -> ServerTransportDraft {
    if name == "sse"@ {
        ServerTransportDraft::Sse
    } else if name == "streamable_http"@ {
        ServerTransportDraft::StreamableHttp
    } else {
        ServerTransportDraft::Stdio
    }
}

/// The enabled flag after a key on the Enabled field: y/1/t set it, n/0/f
/// clear it, space toggles it, other keys leave it.
pub open spec fn enabled_after(enabled: bool, ch: char) -> bool {
    if ch == 'y' || ch == 'Y' || ch == '1' || ch == 't' || ch == 'T' {
        true
    } else if ch == 'n' || ch == 'N' || ch == '0' || ch == 'f' || ch == 'F' {
        false
    } else if ch == ' ' {
        !enabled
    } else {
        enabled
    }
}

/// The flag after a key on an Enabled field.
pub fn toggle_enabled(enabled: bool, ch: char) -> (r: bool)
    ensures
        r == enabled_after(enabled, ch),
{
    match ch {
        'y' | 'Y' | '1' | 't' | 'T' => true,
        'n' | 'N' | '0' | 'f' | 'F' => false,
        ' ' => !enabled,
        _ => enabled,
    }
}

/// The transport after a key on the Transport field: `s` stdio, `e` SSE,
/// `h` streamable HTTP (either case); other keys leave it.
pub open spec fn transport_after(t: ServerTransportDraft, ch: char) -> ServerTransportDraft {
    if ch == 's' || ch == 'S' {
        ServerTransportDraft::Stdio
    } else if ch == 'e' || ch == 'E' {
        ServerTransportDraft::Sse
    } else if ch == 'h' || ch == 'H' {
        ServerTransportDraft::StreamableHttp
    } else {
        t
    }
}

/// The abstract server form, texts as characters.
pub struct ServerDraftView {
    pub name: Seq<char>,
    pub transport: ServerTransportDraft,
    pub command: Seq<char>,
    pub args_text: Seq<char>,
    pub url: Seq<char>,
    pub description: Seq<char>,
    pub enabled: bool,
}

impl View for ServerDraft {
    type V = ServerDraftView;

    open spec fn view(&self) -> ServerDraftView {
        ServerDraftView {
            name: self.name@,
            transport: self.transport,
            command: self.command@,
            args_text: self.args_text@,
            url: self.url@,
            description: self.description@,
            enabled: self.enabled,
        }
    }
}

/// The server form that edits configured settings: name, transport,
/// description and enabled flag come from the settings; command, arguments
/// and URL start empty.
pub open spec fn server_draft_of(view: McpServerSettingsView) -> ServerDraftView {
    ServerDraftView {
        name: view.name@,
        transport: transport_of(view.transport@),
        command: Seq::empty(),
        args_text: Seq::empty(),
        url: Seq::empty(),
        description: match view.description {
            Some(t) => t@,
            None => Seq::empty(),
        },
        enabled: view.enabled,
    }
}

/// The server form after typing `ch` into `field`.
pub open spec fn server_push_spec(d: ServerDraftView, field: ServerEditorField, ch: char) -> ServerDraftView {
    match field {
        ServerEditorField::Name => ServerDraftView { name: d.name.push(ch), ..d },
        ServerEditorField::Transport => ServerDraftView { transport: transport_after(d.transport, ch), ..d },
        ServerEditorField::CommandOrUrl => if d.transport == ServerTransportDraft::Stdio {
            ServerDraftView { command: d.command.push(ch), ..d }
        } else {
            ServerDraftView { url: d.url.push(ch), ..d }
        },
        ServerEditorField::Args => if d.transport == ServerTransportDraft::Stdio {
            ServerDraftView { args_text: d.args_text.push(ch), ..d }
        } else {
            d
        },
        ServerEditorField::Description => ServerDraftView { description: d.description.push(ch), ..d },
        ServerEditorField::Enabled => ServerDraftView { enabled: enabled_after(d.enabled, ch), ..d },
    }
}

/// The server form after Backspace in `field`.
pub open spec fn server_backspace_spec(d: ServerDraftView, field: ServerEditorField) -> ServerDraftView {
    match field {
        ServerEditorField::Name => ServerDraftView { name: pop_seq(d.name), ..d },
        ServerEditorField::CommandOrUrl => if d.transport == ServerTransportDraft::Stdio {
            ServerDraftView { command: pop_seq(d.command), ..d }
        } else {
            ServerDraftView { url: pop_seq(d.url), ..d }
        },
        ServerEditorField::Args => if d.transport == ServerTransportDraft::Stdio {
            ServerDraftView { args_text: pop_seq(d.args_text), ..d }
        } else {
            d
        },
        ServerEditorField::Description => ServerDraftView { description: pop_seq(d.description), ..d },
        _ => d,
    }
}

/// The server form after Delete in `field`: the field's text is cleared.
pub open spec fn server_clear_spec(d: ServerDraftView, field: ServerEditorField) -> ServerDraftView {
    match field {
        ServerEditorField::Name => ServerDraftView { name: Seq::empty(), ..d },
        ServerEditorField::CommandOrUrl => if d.transport == ServerTransportDraft::Stdio {
            ServerDraftView { command: Seq::empty(), ..d }
        } else {
            ServerDraftView { url: Seq::empty(), ..d }
        },
        ServerEditorField::Args => if d.transport == ServerTransportDraft::Stdio {
            ServerDraftView { args_text: Seq::empty(), ..d }
        } else {
            d
        },
        ServerEditorField::Description => ServerDraftView { description: Seq::empty(), ..d },
        _ => d,
    }
}

/// The server form can be saved: a name, and a command (stdio) or a URL.
pub open spec fn server_ready(d: ServerDraftView) -> bool {
    !is_blank(d.name) && if d.transport == ServerTransportDraft::Stdio {
        !is_blank(d.command)
    } else {
        !is_blank(d.url)
    }
}

/// The settings that a ready server form saves.
pub open spec fn server_input_ok(d: ServerDraftView, i: McpServerSettingsInput) -> bool {
    &&& i.name@ == trim_seq(d.name)
    &&& i.enabled == d.enabled
    &&& (is_blank(d.description) ==> i.description is None)
    &&& (!is_blank(d.description) ==> (i.description matches Some(t) && t@ == trim_seq(d.description)))
    &&& match i.transport {
        McpServerSettingsTransport::Stdio { command, args, env } => d.transport == ServerTransportDraft::Stdio
            && command@ == trim_seq(d.command) && views(args@) == words_seq(d.args_text)
            && env.wf() && env.map().dom().is_empty(),
        McpServerSettingsTransport::Sse { url, headers } => d.transport == ServerTransportDraft::Sse
            && url@ == trim_seq(d.url) && headers.wf() && headers.map().dom().is_empty(),
        McpServerSettingsTransport::StreamableHttp { url, headers } => d.transport
            == ServerTransportDraft::StreamableHttp && url@ == trim_seq(d.url) && headers.wf()
            && headers.map().dom().is_empty(),
    }
}

impl ServerDraft {
    /// An empty stdio server form, enabled.
    pub fn new() -> (d: ServerDraft)
        ensures
            d@ == (ServerDraftView {
                name: Seq::empty(),
                transport: ServerTransportDraft::Stdio,
                command: Seq::empty(),
                args_text: Seq::empty(),
                url: Seq::empty(),
                description: Seq::empty(),
                enabled: true,
            }),
    {
        ServerDraft {
            name: String::new(),
            transport: ServerTransportDraft::Stdio,
            command: String::new(),
            args_text: String::new(),
            url: String::new(),
            description: String::new(),
            enabled: true,
        }
    }

    /// A form filled from saved settings (name, transport, description,
    /// enabled flag).
    pub fn from_view(view: &McpServerSettingsView) -> (d: ServerDraft)
        ensures
            d@ == server_draft_of(*view),
    {
        let transport = if str_eq(view.transport.as_str(), "sse") {
            ServerTransportDraft::Sse
        } else if str_eq(view.transport.as_str(), "streamable_http") {
            ServerTransportDraft::StreamableHttp
        } else {
            ServerTransportDraft::Stdio
        };
        ServerDraft {
            name: view.name.clone(),
            transport,
            command: String::new(),
            args_text: String::new(),
            url: String::new(),
            description: match &view.description {
                Some(t) => t.clone(),
                None => String::new(),
            },
            enabled: view.enabled,
        }
    }

    /// The settings to save, or nothing when the form is not ready.
    pub fn to_input(&self) -> (r: Option<McpServerSettingsInput>)
        ensures
            r is Some <==> server_ready(self@),
            r matches Some(i) ==> server_input_ok(self@, i),
    {
        let name = trim(self.name.as_str());
        if name.as_str().unicode_len() == 0 {
            return None;
        }
        let transport = match self.transport {
            ServerTransportDraft::Stdio => {
                let command = trim(self.command.as_str());
                if command.as_str().unicode_len() == 0 {
                    return None;
                }
                McpServerSettingsTransport::Stdio {
                    command,
                    args: split_args(self.args_text.as_str()),
                    env: TextMap::new(),
                }
            },
            ServerTransportDraft::Sse => {
                let url = trim(self.url.as_str());
                if url.as_str().unicode_len() == 0 {
                    return None;
                }
                McpServerSettingsTransport::Sse { url, headers: TextMap::new() }
            },
            ServerTransportDraft::StreamableHttp => {
                let url = trim(self.url.as_str());
                if url.as_str().unicode_len() == 0 {
                    return None;
                }
                McpServerSettingsTransport::StreamableHttp { url, headers: TextMap::new() }
            },
        };
        Some(McpServerSettingsInput {
            name,
            enabled: self.enabled,
            description: trim_option(self.description.as_str()),
            transport,
        })
    }

    /// Types a character into a field.
    pub fn push_char(&mut self, field: ServerEditorField, ch: char)
        ensures
            final(self)@ == server_push_spec(old(self)@, field, ch),
    {
        match field {
            ServerEditorField::Name => push_char(&mut self.name, ch),
            ServerEditorField::Transport => {
                self.transport = match ch {
                    's' | 'S' => ServerTransportDraft::Stdio,
                    'e' | 'E' => ServerTransportDraft::Sse,
                    'h' | 'H' => ServerTransportDraft::StreamableHttp,
                    _ => self.transport,
                };
            },
            ServerEditorField::CommandOrUrl => {
                if self.transport == ServerTransportDraft::Stdio {
                    push_char(&mut self.command, ch);
                } else {
                    push_char(&mut self.url, ch);
                }
            },
            ServerEditorField::Args => {
                if self.transport == ServerTransportDraft::Stdio {
                    push_char(&mut self.args_text, ch);
                }
            },
            ServerEditorField::Description => push_char(&mut self.description, ch),
            ServerEditorField::Enabled => self.enabled = toggle_enabled(self.enabled, ch),
        }
    }

    /// Deletes the last character of a field.
    pub fn backspace(&mut self, field: ServerEditorField)
        ensures
            final(self)@ == server_backspace_spec(old(self)@, field),
    {
        match field {
            ServerEditorField::Name => {
                pop_char(&mut self.name);
            },
            ServerEditorField::CommandOrUrl => {
                if self.transport == ServerTransportDraft::Stdio {
                    pop_char(&mut self.command);
                } else {
                    pop_char(&mut self.url);
                }
            },
            ServerEditorField::Args => {
                if self.transport == ServerTransportDraft::Stdio {
                    pop_char(&mut self.args_text);
                }
            },
            ServerEditorField::Description => {
                pop_char(&mut self.description);
            },
            _ => {},
        }
    }

    /// Clears a field.
    pub fn clear_field(&mut self, field: ServerEditorField)
        ensures
            final(self)@ == server_clear_spec(old(self)@, field),
    {
        match field {
            ServerEditorField::Name => self.name = String::new(),
            ServerEditorField::CommandOrUrl => {
                if self.transport == ServerTransportDraft::Stdio {
                    self.command = String::new();
                } else {
                    self.url = String::new();
                }
            },
            ServerEditorField::Args => {
                if self.transport == ServerTransportDraft::Stdio {
                    self.args_text = String::new();
                }
            },
            ServerEditorField::Description => self.description = String::new(),
            _ => {},
        }
    }
}

/// The abstract source form.
pub struct SourceDraftView {
    pub id: Seq<char>,
    pub display_name: Seq<char>,
    pub url: Seq<char>,
    pub api_key_env: Seq<char>,
    pub priority: Seq<char>,
    pub default_trust: Seq<char>,
    pub enabled: bool,
}

impl View for SourceDraft {
    type V = SourceDraftView;

    open spec fn view(&self) -> SourceDraftView {
        SourceDraftView {
            id: self.id@,
            display_name: self.display_name@,
            url: self.url@,
            api_key_env: self.api_key_env@,
            priority: self.priority@,
            default_trust: self.default_trust@,
            enabled: self.enabled,
        }
    }
}

/// The source form after typing `ch` into `field`; the priority takes
/// digits only.
pub open spec fn source_push_spec(d: SourceDraftView, field: SourceEditorField, ch: char) -> SourceDraftView {
    match field {
        SourceEditorField::Id => SourceDraftView { id: d.id.push(ch), ..d },
        SourceEditorField::DisplayName => SourceDraftView { display_name: d.display_name.push(ch), ..d },
        SourceEditorField::Url => SourceDraftView { url: d.url.push(ch), ..d },
        SourceEditorField::ApiKeyEnv => SourceDraftView { api_key_env: d.api_key_env.push(ch), ..d },
        SourceEditorField::Priority => if crate::text::is_digit(ch) {
            SourceDraftView { priority: d.priority.push(ch), ..d }
        } else {
            d
        },
        SourceEditorField::DefaultTrust => SourceDraftView { default_trust: d.default_trust.push(ch), ..d },
        SourceEditorField::Enabled => SourceDraftView { enabled: enabled_after(d.enabled, ch), ..d },
    }
}

/// The source form after Backspace in `field`.
pub open spec fn source_backspace_spec(d: SourceDraftView, field: SourceEditorField) -> SourceDraftView {
    match field {
        SourceEditorField::Id => SourceDraftView { id: pop_seq(d.id), ..d },
        SourceEditorField::DisplayName => SourceDraftView { display_name: pop_seq(d.display_name), ..d },
        SourceEditorField::Url => SourceDraftView { url: pop_seq(d.url), ..d },
        SourceEditorField::ApiKeyEnv => SourceDraftView { api_key_env: pop_seq(d.api_key_env), ..d },
        SourceEditorField::Priority => SourceDraftView { priority: pop_seq(d.priority), ..d },
        SourceEditorField::DefaultTrust => SourceDraftView { default_trust: pop_seq(d.default_trust), ..d },
        SourceEditorField::Enabled => d,
    }
}

/// The source form after Delete in `field`.
pub open spec fn source_clear_spec(d: SourceDraftView, field: SourceEditorField) -> SourceDraftView {
    match field {
        SourceEditorField::Id => SourceDraftView { id: Seq::empty(), ..d },
        SourceEditorField::DisplayName => SourceDraftView { display_name: Seq::empty(), ..d },
        SourceEditorField::Url => SourceDraftView { url: Seq::empty(), ..d },
        SourceEditorField::ApiKeyEnv => SourceDraftView { api_key_env: Seq::empty(), ..d },
        SourceEditorField::Priority => SourceDraftView { priority: Seq::empty(), ..d },
        SourceEditorField::DefaultTrust => SourceDraftView { default_trust: Seq::empty(), ..d },
        SourceEditorField::Enabled => d,
    }
}

/// The source form can be saved: id, name and URL are given.
pub open spec fn source_ready(d: SourceDraftView) -> bool {
    !is_blank(d.id) && !is_blank(d.display_name) && !is_blank(d.url)
}

/// `Some(trimmed)` of a text, nothing when it is blank.
pub open spec fn opt_trimmed_ok(src: Seq<char>, r: Option<String>) -> bool {
    &&& (is_blank(src) ==> r is None)
    &&& (!is_blank(src) ==> (r matches Some(t) && t@ == trim_seq(src)))
}

/// The request that a ready source form sends: registry kind, the priority
/// when it parses (100 otherwise).
pub open spec fn source_request_ok(d: SourceDraftView, r: AddCatalogSourceRequest) -> bool {
    &&& r.id@ == trim_seq(d.id)
    &&& r.display_name@ == trim_seq(d.display_name)
    &&& r.kind@ == "mcp_registry"@
    &&& r.url@ == trim_seq(d.url)
    &&& opt_trimmed_ok(d.api_key_env, r.api_key_env)
    &&& r.priority == Some(match parse_u32_seq(trim_seq(d.priority)) {
        Some(p) => p,
        None => 100u32,
    })
    &&& opt_trimmed_ok(d.default_trust, r.default_trust)
    &&& r.enabled == Some(d.enabled)
    &&& r.cache_ttl_seconds is None
}

impl SourceDraft {
    /// An empty source form: priority 100, community trust, enabled.
    pub fn new() -> (d: SourceDraft)
        ensures
            d@ == (SourceDraftView {
                id: Seq::empty(),
                display_name: Seq::empty(),
                url: Seq::empty(),
                api_key_env: Seq::empty(),
                priority: "100"@,
                default_trust: "community"@,
                enabled: true,
            }),
    {
        SourceDraft {
            id: String::new(),
            display_name: String::new(),
            url: String::new(),
            api_key_env: String::new(),
            priority: String::from_str("100"),
            default_trust: String::from_str("community"),
            enabled: true,
        }
    }

    /// The request to send, or nothing when the form is not ready.
    pub fn to_request(&self) -> (r: Option<AddCatalogSourceRequest>)
        ensures
            r is Some <==> source_ready(self@),
            r matches Some(q) ==> source_request_ok(self@, q),
    {
        let id = trim(self.id.as_str());
        let display_name = trim(self.display_name.as_str());
        let url = trim(self.url.as_str());
        if id.as_str().unicode_len() == 0 || display_name.as_str().unicode_len() == 0 || url.as_str().unicode_len() == 0 {
            return None;
        }
        let p = trim(self.priority.as_str());
        let priority = match parse_u32(p.as_str()) {
            Some(v) => v,
            None => 100,
        };
        Some(AddCatalogSourceRequest {
            id,
            display_name,
            kind: String::from_str("mcp_registry"),
            url,
            api_key_env: trim_option(self.api_key_env.as_str()),
            priority: Some(priority),
            default_trust: trim_option(self.default_trust.as_str()),
            enabled: Some(self.enabled),
            cache_ttl_seconds: None,
        })
    }

    /// Types a character into a field.
    pub fn push_char(&mut self, field: SourceEditorField, ch: char)
        ensures
            final(self)@ == source_push_spec(old(self)@, field, ch),
    {
        match field {
            SourceEditorField::Id => push_char(&mut self.id, ch),
            SourceEditorField::DisplayName => push_char(&mut self.display_name, ch),
            SourceEditorField::Url => push_char(&mut self.url, ch),
            SourceEditorField::ApiKeyEnv => push_char(&mut self.api_key_env, ch),
            SourceEditorField::Priority => {
                if '0' <= ch && ch <= '9' {
                    push_char(&mut self.priority, ch);
                }
            },
            SourceEditorField::DefaultTrust => push_char(&mut self.default_trust, ch),
            SourceEditorField::Enabled => self.enabled = toggle_enabled(self.enabled, ch),
        }
    }

    /// Deletes the last character of a field.
    pub fn backspace(&mut self, field: SourceEditorField)
        ensures
            final(self)@ == source_backspace_spec(old(self)@, field),
    {
        match field {
            SourceEditorField::Id => {
                pop_char(&mut self.id);
            },
            SourceEditorField::DisplayName => {
                pop_char(&mut self.display_name);
            },
            SourceEditorField::Url => {
                pop_char(&mut self.url);
            },
            SourceEditorField::ApiKeyEnv => {
                pop_char(&mut self.api_key_env);
            },
            SourceEditorField::Priority => {
                pop_char(&mut self.priority);
            },
            SourceEditorField::DefaultTrust => {
                pop_char(&mut self.default_trust);
            },
            SourceEditorField::Enabled => {},
        }
    }

    /// Clears a field.
    pub fn clear_field(&mut self, field: SourceEditorField)
        ensures
            final(self)@ == source_clear_spec(old(self)@, field),
    {
        match field {
            SourceEditorField::Id => self.id = String::new(),
            SourceEditorField::DisplayName => self.display_name = String::new(),
            SourceEditorField::Url => self.url = String::new(),
            SourceEditorField::ApiKeyEnv => self.api_key_env = String::new(),
            SourceEditorField::Priority => self.priority = String::new(),
            SourceEditorField::DefaultTrust => self.default_trust = String::new(),
            SourceEditorField::Enabled => {},
        }
    }
}

/// The configuration item of a declared variable: an HTTP header when the
/// remote server's headers use that key, an environment variable otherwise.
pub open spec fn config_item_spec(e: EnvVarSpec, header_keys: Seq<Seq<char>>) -> (Seq<char>, bool) {
    (if header_keys.contains(e.key@) { "HTTP header"@ } else { "env"@ }, true)
}

/// The configuration that a catalog entry asks for, one item per declared
/// variable, in order: a header of the remote transport when the headers
/// use that key, an environment variable otherwise.
pub fn config_items_from(env: &[EnvVarSpec], header_keys: &[String]) -> (r: Vec<CatalogConfigItem>)
    ensures
        r@.len() == env@.len(),
        forall|i: int| #![trigger r@[i]] 0 <= i < env@.len() ==> {
            &&& r@[i].key@ == env@[i].key@
            &&& r@[i].label@ == env@[i].label@
            &&& r@[i].description@ == env@[i].description@
            &&& r@[i].required == env@[i].required
            &&& r@[i].secret == env@[i].secret
            &&& r@[i].default == env@[i].default
            &&& r@[i].kind@ == config_item_spec(env@[i], views(header_keys@)).0
        },
{
    let mut r: Vec<CatalogConfigItem> = Vec::new();
    let mut i: usize = 0;
    while i < env.len()
        invariant
            i <= env.len(),
            r@.len() == i,
            forall|k: int| #![trigger r@[k]] 0 <= k < i ==> {
                &&& r@[k].key@ == env@[k].key@
                &&& r@[k].label@ == env@[k].label@
                &&& r@[k].description@ == env@[k].description@
                &&& r@[k].required == env@[k].required
                &&& r@[k].secret == env@[k].secret
                &&& r@[k].default == env@[k].default
                &&& r@[k].kind@ == config_item_spec(env@[k], views(header_keys@)).0
            },
        decreases env.len() - i,
    {
        let e = &env[i];
        let mut is_header = false;
        let mut k: usize = 0;
        while k < header_keys.len()
            invariant
                k <= header_keys.len(),
                is_header == exists|q: int| 0 <= q < k && #[trigger] header_keys@[q]@ == e.key@,
            decreases header_keys.len() - k,
        {
            if header_keys[k] == e.key {
                is_header = true;
            }
            k = k + 1;
        }
        proof {
            let hv = views(header_keys@);
            if is_header {
                let q = choose|q: int| 0 <= q < header_keys.len() && #[trigger] header_keys@[q]@ == e.key@;
                assert(hv[q] == e.key@);
            } else {
                assert forall|q: int| 0 <= q < hv.len() implies hv[q] != e.key@ by {
                    assert(hv[q] == header_keys@[q]@);
                }
            }
        }
        let kind = if is_header { String::from_str("HTTP header") } else { String::from_str("env") };
        r.push(CatalogConfigItem {
            key: e.key.clone(),
            label: e.label.clone(),
            description: e.description.clone(),
            kind,
            required: e.required,
            secret: e.secret,
            default: e.default.clone(),
        });
        i = i + 1;
    }
    r
}

/// The values the install form starts with: each item's default, or empty.
pub open spec fn initial_values(items: Seq<CatalogConfigItem>) -> Map<Seq<char>, Seq<char>>
    decreases items.len(),
{
    if items.len() == 0 {
        Map::empty()
    } else {
        initial_values(items.drop_last()).insert(
            items.last().key@,
            match items.last().default {
                Some(d) => d@,
                None => Seq::empty(),
            },
        )
    }
}

/// The view of a map with text values.
pub open spec fn text_values(m: Map<Seq<char>, String>) -> Map<Seq<char>, Seq<char>> {
    m.map_values(|v: String| v@)
}

/// Every required item has a value that is not blank.
pub open spec fn required_filled(items: Seq<CatalogConfigItem>, values: Map<Seq<char>, Seq<char>>) -> bool {
    forall|i: int| #![trigger items[i]] 0 <= i < items.len() && items[i].required ==> values.contains_key(items[i].key@)
        && !is_blank(values[items[i].key@])
}

/// The overrides an install sends: the trimmed values that are not blank.
pub open spec fn overrides_of(values: Map<Seq<char>, Seq<char>>) -> Map<Seq<char>, Seq<char>> {
    Map::new(|k: Seq<char>| values.contains_key(k) && !is_blank(values[k]), |k: Seq<char>| trim_seq(values[k]))
}

/// `d` is the configuration form of catalog entry `e`: its items, each
/// value starting at the item's default (empty without one).
pub open spec fn draft_of_entry(d: CatalogInstallDraft, e: ServerEntry) -> bool {
    &&& d.catalog_id@ == e.id@
    &&& d.source@ == e.source@
    &&& d.display_name@ == e.display_name@
    &&& d.items@ == e.config_items@
    &&& d.values.wf()
    &&& text_values(d.values.map()) == initial_values(e.config_items@)
}

/// The form `d1` differs from `d0` only in its values.
pub open spec fn same_form(d0: CatalogInstallDraft, d1: CatalogInstallDraft) -> bool {
    &&& d1.values.wf()
    &&& d1.items == d0.items
    &&& d1.catalog_id == d0.catalog_id
    &&& d1.source == d0.source
    &&& d1.display_name == d0.display_name
}

/// `d1` is `d0` after typing `ch` into item `index` (nothing changes past
/// the last item).
pub open spec fn install_push_ok(d0: CatalogInstallDraft, d1: CatalogInstallDraft, index: usize, ch: char) -> bool {
    let tv = text_values(d0.values.map());
    &&& same_form(d0, d1)
    &&& index >= d0.items@.len() ==> text_values(d1.values.map()) == tv
    &&& index < d0.items@.len() ==> {
        let key = d0.items@[index as int].key@;
        text_values(d1.values.map()) == tv.insert(key, if tv.contains_key(key) { tv[key] } else { Seq::empty() }.push(ch))
    }
}

/// `d1` is `d0` after Backspace in item `index`: the item's value loses its
/// last character (nothing changes past the last item or without a value).
pub open spec fn install_backspace_ok(d0: CatalogInstallDraft, d1: CatalogInstallDraft, index: usize) -> bool {
    let tv = text_values(d0.values.map());
    &&& same_form(d0, d1)
    &&& (index >= d0.items@.len() || !tv.contains_key(d0.items@[index as int].key@)) ==> text_values(d1.values.map()) == tv
    &&& (index < d0.items@.len() && tv.contains_key(d0.items@[index as int].key@)) ==> {
        let key = d0.items@[index as int].key@;
        text_values(d1.values.map()) == tv.insert(key, pop_seq(tv[key]))
    }
}

/// `d1` is `d0` after Delete in item `index`: the item's value is emptied.
pub open spec fn install_clear_ok(d0: CatalogInstallDraft, d1: CatalogInstallDraft, index: usize) -> bool {
    let tv = text_values(d0.values.map());
    &&& same_form(d0, d1)
    &&& index >= d0.items@.len() ==> text_values(d1.values.map()) == tv
    &&& index < d0.items@.len() ==> text_values(d1.values.map()) == tv.insert(d0.items@[index as int].key@, Seq::empty())
}

impl CatalogInstallDraft {
    /// An empty form.
    pub fn new() -> (d: CatalogInstallDraft)
        ensures
            d.catalog_id@.len() == 0,
            d.source@.len() == 0,
            d.display_name@.len() == 0,
            d.items@.len() == 0,
            d.values.wf(),
            d.values.map().dom().is_empty(),
    {
        CatalogInstallDraft {
            catalog_id: String::new(),
            source: String::new(),
            display_name: String::new(),
            items: Vec::new(),
            values: TextMap::new(),
        }
    }

    /// The form for a catalog entry: its configuration items, each value
    /// starting at the item's default (or empty).
    pub fn from_entry(entry: &ServerEntry) -> (d: CatalogInstallDraft)
        ensures
            draft_of_entry(d, *entry),
    {
        let mut items: Vec<CatalogConfigItem> = Vec::new();
        let mut values: TextMap<String> = TextMap::new();
        let mut i: usize = 0;
        while i < entry.config_items.len()
            invariant
                i <= entry.config_items.len(),
                items@ == entry.config_items@.subrange(0, i as int),
                values.wf(),
                text_values(values.map()) == initial_values(entry.config_items@.subrange(0, i as int)),
            decreases entry.config_items.len() - i,
        {
            let item = &entry.config_items[i];
            items.push(item.clone());
            let v = match &item.default {
                Some(d) => d.clone(),
                None => String::new(),
            };
            let ghost old_map = values.map();
            values.insert(item.key.clone(), v);
            proof {
                assert(entry.config_items@.subrange(0, i + 1).drop_last() =~= entry.config_items@.subrange(0, i as int));
                assert(text_values(values.map()) =~= text_values(old_map).insert(item.key@, v@));
            }
            i = i + 1;
            assert(items@ =~= entry.config_items@.subrange(0, i as int));
        }
        assert(entry.config_items@.subrange(0, entry.config_items@.len() as int) =~= entry.config_items@);
        CatalogInstallDraft {
            catalog_id: entry.id.clone(),
            source: entry.source.clone(),
            display_name: entry.display_name.clone(),
            items,
            values,
        }
    }

    /// The install to run, or nothing while a required value is blank.
    pub fn to_request(&self) -> (r: Option<InstallRequest>)
        requires
            self.values.wf(),
        ensures
            r is Some <==> required_filled(self.items@, text_values(self.values.map())),
            r matches Some(q) ==> {
                &&& q.catalog_id@ == self.catalog_id@
                &&& q.source@ == self.source@
                &&& !q.trust_grant
                &&& q.auto_start
                &&& q.server_id_override is None
                &&& q.env_overrides.wf()
                &&& text_values(q.env_overrides.map()) == overrides_of(text_values(self.values.map()))
            },
    {
        let mut i: usize = 0;
        while i < self.items.len()
            invariant
                self.values.wf(),
                i <= self.items.len(),
                forall|k: int| #![trigger self.items@[k]] 0 <= k < i && self.items@[k].required ==> text_values(self.values.map()).contains_key(self.items@[k].key@)
                    && !is_blank(text_values(self.values.map())[self.items@[k].key@]),
            decreases self.items.len() - i,
        {
            let item = &self.items[i];
            if item.required {
                match self.values.get(item.key.as_str()) {
                    Some(v) => {
                        if crate::text::is_blank_str(v.as_str()) {
                            return None;
                        }
                    },
                    None => return None,
                }
            }
            i = i + 1;
        }
        let mut overrides: TextMap<String> = TextMap::new();
        let mut j: usize = 0;
        while j < self.values.entries.len()
            invariant
                self.values.wf(),
                j <= self.values.entries.len(),
                overrides.wf(),
                text_values(overrides.map()) == overrides_of(text_values(crate::text_map::entries_map(self.values.entries@.subrange(0, j as int)))),
            decreases self.values.entries.len() - j,
        {
            let ghost before = text_values(overrides.map());
            let (k, v) = &self.values.entries[j];
            let t = trim(v.as_str());
            proof {
                let e = self.values.entries@;
                let sub = e.subrange(0, j as int);
                let sub1 = e.subrange(0, j + 1);
                assert(sub1.drop_last() =~= sub);
                assert(sub1.last() == e[j as int]);
                crate::text_map::lemma_entries_map_dom(sub, k@);
                assert forall|q: int| 0 <= q < sub.len() implies #[trigger] sub[q].0@ != k@ by {
                    assert(sub[q] == e[q]);
                }
            }
            if t.as_str().unicode_len() > 0 {
                let ghost tv = t@;
                overrides.insert(k.clone(), t);
                proof {
                    let e = self.values.entries@;
                    let m0 = crate::text_map::entries_map(e.subrange(0, j as int));
                    let m1 = crate::text_map::entries_map(e.subrange(0, j + 1));
                    assert(m1 == m0.insert(k@, *v));
                    assert(!m0.contains_key(k@));
                    assert(!is_blank(v@));
                    assert(text_values(overrides.map()) == before.insert(k@, tv));
                    assert(text_values(overrides.map()) =~= overrides_of(text_values(crate::text_map::entries_map(self.values.entries@.subrange(0, j + 1)))));
                }
            } else {
                proof {
                    assert(text_values(overrides.map()) =~= overrides_of(text_values(crate::text_map::entries_map(self.values.entries@.subrange(0, j + 1)))));
                }
            }
            j = j + 1;
        }
        assert(self.values.entries@.subrange(0, self.values.entries@.len() as int) =~= self.values.entries@);
        Some(InstallRequest {
            source: self.source.clone(),
            catalog_id: self.catalog_id.clone(),
            env_overrides: overrides,
            trust_grant: false,
            auto_start: true,
            server_id_override: None,
        })
    }

    /// Types a character into the value of the item at `index`; an index
    /// past the items changes nothing.
    pub fn push_char(&mut self, index: usize, ch: char)
        requires
            old(self).values.wf(),
        ensures
            install_push_ok(*old(self), *final(self), index, ch),
    {
        if index >= self.items.len() {
            return;
        }
        let key = self.items[index].key.clone();
        let mut v = match self.values.get(key.as_str()) {
            Some(v) => v.clone(),
            None => String::new(),
        };
        push_char(&mut v, ch);
        let ghost old_map = self.values.map();
        self.values.insert(key, v);
        assert(text_values(self.values.map()) =~= text_values(old_map).insert(
            old(self).items@[index as int].key@,
            v@,
        ));
    }

    /// Deletes the last character of the value of the item at `index`.
    pub fn backspace(&mut self, index: usize)
        requires
            old(self).values.wf(),
        ensures
            install_backspace_ok(*old(self), *final(self), index),
    {
        if index >= self.items.len() {
            return;
        }
        let key = self.items[index].key.clone();
        let mut v = match self.values.get(key.as_str()) {
            Some(v) => v.clone(),
            None => return,
        };
        pop_char(&mut v);
        let ghost old_map = self.values.map();
        self.values.insert(key, v);
        assert(text_values(self.values.map()) =~= text_values(old_map).insert(
            old(self).items@[index as int].key@,
            v@,
        ));
    }

    /// Clears the value of the item at `index`.
    pub fn clear_field(&mut self, index: usize)
        requires
            old(self).values.wf(),
        ensures
            install_clear_ok(*old(self), *final(self), index),
    {
        if index >= self.items.len() {
            return;
        }
        let key = self.items[index].key.clone();
        let ghost old_map = self.values.map();
        let empty = String::new();
        self.values.insert(key, empty);
        assert(text_values(self.values.map()) =~= text_values(old_map).insert(
            old(self).items@[index as int].key@,
            empty@,
        ));
    }
}

/// The install request for a catalog entry with the given overrides: no
/// trust grant, started after install.
pub fn install_request_for_entry(entry: &ServerEntry, env: TextMap<String>) -> (r: InstallRequest)
    ensures
        r.source@ == entry.source@,
        r.catalog_id@ == entry.id@,
        r.env_overrides == env,
        !r.trust_grant,
        r.auto_start,
        r.server_id_override is None,
{
    InstallRequest {
        source: copy_str(entry.source.as_str()),
        catalog_id: copy_str(entry.id.as_str()),
        env_overrides: env,
        trust_grant: false,
        auto_start: true,
        server_id_override: None,
    }
}

} // verus!
