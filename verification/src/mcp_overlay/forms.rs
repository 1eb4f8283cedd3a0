//! The overlay's editors: opening them, moving between their fields, and
//! the keys typed into them.

use vstd::prelude::*;

use crate::commands::Command;
use crate::keys::{KeyCode, KeyInput};
use crate::mcp_overlay::editor::{
    draft_of_entry, install_backspace_ok, install_clear_ok, install_push_ok,
    install_request_for_entry, overrides_of, required_filled, server_backspace_spec,
    server_clear_spec, server_draft_of, server_input_ok, server_push_spec, server_ready,
    source_backspace_spec, source_clear_spec, source_push_spec, source_ready, source_request_ok,
    text_values, CatalogInstallDraft, ServerDraft, ServerEditorField, SourceDraft,
    SourceEditorField, SERVER_EDITOR_FIELDS, SOURCE_EDITOR_FIELDS,
};
use crate::mcp_overlay::state::{pick, sel_catalog_spec, McpOverlay};
use crate::mcp_overlay::types::{pair_key, CatalogInstallStatus, McpOverlayMode};
use crate::text_map::TextMap;

verus! {

/// The server editor's field at a cursor position.
pub open spec fn server_field_at(i: usize) -> ServerEditorField {
    if i == 0 {
        ServerEditorField::Name
    } else if i == 1 {
        ServerEditorField::Transport
    } else if i == 2 {
        ServerEditorField::CommandOrUrl
    } else if i == 3 {
        ServerEditorField::Args
    } else if i == 4 {
        ServerEditorField::Description
    } else {
        ServerEditorField::Enabled
    }
}

/// The source editor's field at a cursor position.
pub open spec fn source_field_at(i: usize) -> SourceEditorField {
    if i == 0 {
        SourceEditorField::Id
    } else if i == 1 {
        SourceEditorField::DisplayName
    } else if i == 2 {
        SourceEditorField::Url
    } else if i == 3 {
        SourceEditorField::ApiKeyEnv
    } else if i == 4 {
        SourceEditorField::Priority
    } else if i == 5 {
        SourceEditorField::DefaultTrust
    } else {
        SourceEditorField::Enabled
    }
}

/// The next cursor position in a ring of `len` fields.
pub open spec fn ring_next(i: usize, len: nat) -> usize {
    ((i + 1) % (len as int)) as usize
}

/// The previous cursor position in a ring of `len` fields.
pub open spec fn ring_prev(i: usize, len: nat) -> usize {
    if i == 0 { (len - 1) as usize } else { (i - 1) as usize }
}

/// `n` is `o` with the server editor open on an empty form.
pub open spec fn server_create_ok(o: McpOverlay, n: McpOverlay) -> bool {
    &&& n == McpOverlay {
        mode: McpOverlayMode::ServerEditor,
        server_draft: n.server_draft,
        server_field_index: 0,
        ..o
    }
    &&& n.server_draft@ == ServerDraft::new_spec()
}

/// `n` is `o` with the server editor open on the highlighted configured
/// server, when it is writable; otherwise nothing changes.
pub open spec fn server_edit_ok(o: McpOverlay, n: McpOverlay) -> bool {
    match pick(o.settings@, o.settings_state.index) {
        Some(s) => if s.writable {
            &&& n == McpOverlay {
                mode: McpOverlayMode::ServerEditor,
                server_draft: n.server_draft,
                server_field_index: 0,
                ..o
            }
            &&& n.server_draft@ == server_draft_of(s)
        } else {
            n == o
        },
        None => n == o,
    }
}

/// `n` is `o` with the source editor open on an empty form.
pub open spec fn source_create_ok(o: McpOverlay, n: McpOverlay) -> bool {
    &&& n == McpOverlay {
        mode: McpOverlayMode::SourceEditor,
        source_draft: n.source_draft,
        source_field_index: 0,
        ..o
    }
    &&& n.source_draft@ == SourceDraft::new_spec()
}

/// `n` is `o` with the install of `(source, catalog_id)` recorded as started.
pub open spec fn install_started(o: McpOverlay, n: McpOverlay, source: Seq<char>, catalog_id: Seq<char>) -> bool {
    &&& n.catalog_install_statuses.wf()
    &&& n.catalog_install_statuses.map() == o.catalog_install_statuses.map().insert(
        pair_key(source, catalog_id),
        CatalogInstallStatus::Installing,
    )
}

/// Installing the highlighted catalog entry: with nothing to configure the
/// install starts at once with no overrides; otherwise the configuration
/// form opens on the entry.
pub open spec fn install_selected_ok(o: McpOverlay, n: McpOverlay, cmds: Seq<Command>) -> bool {
    match sel_catalog_spec(o) {
        None => n == o && cmds.len() == 0,
        Some(e) => if e.config_items@.len() == 0 {
            &&& cmds.len() == 1
            &&& cmds[0] matches Command::InstallMcpServer { request } && request.source@ == e.source@
                && request.catalog_id@ == e.id@ && request.env_overrides.wf()
                && request.env_overrides.map().dom().is_empty() && !request.trust_grant
                && request.auto_start && request.server_id_override is None
            &&& n == McpOverlay { catalog_install_statuses: n.catalog_install_statuses, ..o }
            &&& install_started(o, n, e.source@, e.id@)
        } else {
            &&& cmds.len() == 0
            &&& n == McpOverlay {
                mode: McpOverlayMode::CatalogInstallConfig,
                catalog_install_draft: n.catalog_install_draft,
                catalog_install_field_index: 0,
                ..o
            }
            &&& draft_of_entry(n.catalog_install_draft, e)
        },
    }
}

/// `n` and `cmds` follow `key` in the server editor: Tab/Down and
/// BackTab/Up move between the fields, Esc closes the editor, Backspace,
/// Delete and characters edit the current field, Enter saves a ready form.
pub open spec fn server_editor_ok(o: McpOverlay, n: McpOverlay, key: KeyInput, cmds: Seq<Command>) -> bool {
    let f = server_field_at(o.server_field_index);
    let with_draft = n == McpOverlay { server_draft: n.server_draft, ..o };
    match key.code {
        KeyCode::Tab | KeyCode::Down => cmds.len() == 0 && n == McpOverlay { server_field_index: ring_next(o.server_field_index, 6), ..o },
        KeyCode::BackTab | KeyCode::Up => cmds.len() == 0 && n == McpOverlay { server_field_index: ring_prev(o.server_field_index, 6), ..o },
        KeyCode::Esc => cmds.len() == 0 && n == McpOverlay { mode: McpOverlayMode::List, ..o },
        KeyCode::Backspace => cmds.len() == 0 && with_draft && n.server_draft@ == server_backspace_spec(o.server_draft@, f),
        KeyCode::Delete => cmds.len() == 0 && with_draft && n.server_draft@ == server_clear_spec(o.server_draft@, f),
        KeyCode::Enter => if server_ready(o.server_draft@) {
            &&& n == McpOverlay { mode: McpOverlayMode::List, ..o }
            &&& cmds.len() == 1
            &&& cmds[0] matches Command::SaveMcpServerSettings { input } && server_input_ok(o.server_draft@, input)
        } else {
            n == o && cmds.len() == 0
        },
        KeyCode::Char(ch) => cmds.len() == 0 && if key.control {
            n == o
        } else {
            with_draft && n.server_draft@ == server_push_spec(o.server_draft@, f, ch)
        },
        _ => n == o && cmds.len() == 0,
    }
}

/// `n` and `cmds` follow `key` in the source editor, as in the server
/// editor; Enter adds a ready source.
pub open spec fn source_editor_ok(o: McpOverlay, n: McpOverlay, key: KeyInput, cmds: Seq<Command>) -> bool {
    let f = source_field_at(o.source_field_index);
    let with_draft = n == McpOverlay { source_draft: n.source_draft, ..o };
    match key.code {
        KeyCode::Tab | KeyCode::Down => cmds.len() == 0 && n == McpOverlay { source_field_index: ring_next(o.source_field_index, 7), ..o },
        KeyCode::BackTab | KeyCode::Up => cmds.len() == 0 && n == McpOverlay { source_field_index: ring_prev(o.source_field_index, 7), ..o },
        KeyCode::Esc => cmds.len() == 0 && n == McpOverlay { mode: McpOverlayMode::List, ..o },
        KeyCode::Backspace => cmds.len() == 0 && with_draft && n.source_draft@ == source_backspace_spec(o.source_draft@, f),
        KeyCode::Delete => cmds.len() == 0 && with_draft && n.source_draft@ == source_clear_spec(o.source_draft@, f),
        KeyCode::Enter => if source_ready(o.source_draft@) {
            &&& n == McpOverlay { mode: McpOverlayMode::List, ..o }
            &&& cmds.len() == 1
            &&& cmds[0] matches Command::AddMcpCatalogSource { request } && source_request_ok(o.source_draft@, request)
        } else {
            n == o && cmds.len() == 0
        },
        KeyCode::Char(ch) => cmds.len() == 0 && if key.control {
            n == o
        } else {
            with_draft && n.source_draft@ == source_push_spec(o.source_draft@, f, ch)
        },
        _ => n == o && cmds.len() == 0,
    }
}

/// The install form's cursor after one step down (it stays put when the
/// form has no items).
pub open spec fn install_field_next(i: usize, len: nat) -> usize {
    if len > 0 { ring_next(i, len) } else { i }
}

/// The install form's cursor after one step up.
pub open spec fn install_field_prev(i: usize, len: nat) -> usize {
    if len > 0 { ring_prev(i, len) } else { i }
}

/// `n` and `cmds` follow `key` in the install configuration form: the
/// cursor moves over the items, Backspace, Delete and characters edit the
/// current item's value, and Enter starts the install once every required
/// item has a value.
pub open spec fn install_config_ok(o: McpOverlay, n: McpOverlay, key: KeyInput, cmds: Seq<Command>) -> bool {
    let d = o.catalog_install_draft;
    let i = o.catalog_install_field_index;
    let with_draft = n == McpOverlay { catalog_install_draft: n.catalog_install_draft, ..o };
    match key.code {
        KeyCode::Tab | KeyCode::Down => cmds.len() == 0 && n == McpOverlay {
            catalog_install_field_index: install_field_next(i, d.items@.len()),
            ..o
        },
        KeyCode::BackTab | KeyCode::Up => cmds.len() == 0 && n == McpOverlay {
            catalog_install_field_index: install_field_prev(i, d.items@.len()),
            ..o
        },
        KeyCode::Esc => cmds.len() == 0 && n == McpOverlay { mode: McpOverlayMode::List, ..o },
        KeyCode::Backspace => cmds.len() == 0 && with_draft && install_backspace_ok(d, n.catalog_install_draft, i),
        KeyCode::Delete => cmds.len() == 0 && with_draft && install_clear_ok(d, n.catalog_install_draft, i),
        KeyCode::Enter => if required_filled(d.items@, text_values(d.values.map())) {
            &&& n == McpOverlay { mode: McpOverlayMode::List, catalog_install_statuses: n.catalog_install_statuses, ..o }
            &&& install_started(o, n, d.source@, d.catalog_id@)
            &&& cmds.len() == 1
            &&& cmds[0] matches Command::InstallMcpServer { request } && request.catalog_id@ == d.catalog_id@
                && request.source@ == d.source@ && !request.trust_grant && request.auto_start
                && request.server_id_override is None && request.env_overrides.wf()
                && text_values(request.env_overrides.map()) == overrides_of(text_values(d.values.map()))
        } else {
            n == o && cmds.len() == 0
        },
        KeyCode::Char(ch) => cmds.len() == 0 && if key.control {
            n == o
        } else {
            with_draft && install_push_ok(d, n.catalog_install_draft, i, ch)
        },
        _ => n == o && cmds.len() == 0,
    }
}

impl McpOverlay {
    /// Opens the server editor on an empty form.
    pub fn start_server_create(&mut self)
        requires
            old(self).wf(),
        ensures
            final(self).wf(),
            server_create_ok(*old(self), *final(self)),
    {
        self.mode = McpOverlayMode::ServerEditor;
        self.server_draft = ServerDraft::new();
        self.server_field_index = 0;
    }

    /// Opens the server editor on the highlighted configured server, if it
    /// is writable.
    pub fn start_server_edit_selected(&mut self)
        requires
            old(self).wf(),
        ensures
            final(self).wf(),
            server_edit_ok(*old(self), *final(self)),
    {
        let draft = match self.selected_setting() {
            Some(s) => if s.writable {
                ServerDraft::from_view(s)
            } else {
                return;
            },
            None => return,
        };
        self.mode = McpOverlayMode::ServerEditor;
        self.server_draft = draft;
        self.server_field_index = 0;
    }

    /// Opens the source editor on an empty form.
    pub fn start_source_create(&mut self)
        requires
            old(self).wf(),
        ensures
            final(self).wf(),
            source_create_ok(*old(self), *final(self)),
    {
        self.mode = McpOverlayMode::SourceEditor;
        self.source_draft = SourceDraft::new();
        self.source_field_index = 0;
    }

    /// Installs the highlighted catalog entry, or opens its configuration
    /// form when it asks for values.
    pub fn start_catalog_install_selected(&mut self) -> (cmds: Vec<Command>)
        requires
            old(self).wf(),
        ensures
            final(self).wf(),
            install_selected_ok(*old(self), *final(self), cmds@),
    {
        let entry = match self.selected_catalog_entry() {
            Some(e) => e,
            None => return Vec::new(),
        };
        if entry.config_items.len() == 0 {
            let request = install_request_for_entry(entry, TextMap::new());
            self.mark_catalog_install_started(&request);
            return vec![Command::InstallMcpServer { request }];
        }
        let draft = CatalogInstallDraft::from_entry(entry);
        self.mode = McpOverlayMode::CatalogInstallConfig;
        self.catalog_install_draft = draft;
        self.catalog_install_field_index = 0;
        Vec::new()
    }

    /// The server editor's current field.
    pub fn current_server_field(&self) -> (f: ServerEditorField)
        requires
            self.wf(),
        ensures
            f == server_field_at(self.server_field_index),
    {
        SERVER_EDITOR_FIELDS[self.server_field_index]
    }

    /// The source editor's current field.
    pub fn current_source_field(&self) -> (f: SourceEditorField)
        requires
            self.wf(),
        ensures
            f == source_field_at(self.source_field_index),
    {
        SOURCE_EDITOR_FIELDS[self.source_field_index]
    }

    /// Next server field, wrapping to the first.
    pub fn move_server_field_down(&mut self)
        requires
            old(self).wf(),
        ensures
            final(self).wf(),
            *final(self) == (McpOverlay { server_field_index: ring_next(old(self).server_field_index, 6), ..*old(self) }),
    {
        self.server_field_index = (self.server_field_index + 1) % 6;
    }

    /// Previous server field, wrapping to the last.
    pub fn move_server_field_up(&mut self)
        requires
            old(self).wf(),
        ensures
            final(self).wf(),
            *final(self) == (McpOverlay { server_field_index: ring_prev(old(self).server_field_index, 6), ..*old(self) }),
    {
        self.server_field_index = if self.server_field_index == 0 { 5 } else { self.server_field_index - 1 };
    }

    /// Next source field, wrapping to the first.
    pub fn move_source_field_down(&mut self)
        requires
            old(self).wf(),
        ensures
            final(self).wf(),
            *final(self) == (McpOverlay { source_field_index: ring_next(old(self).source_field_index, 7), ..*old(self) }),
    {
        self.source_field_index = (self.source_field_index + 1) % 7;
    }

    /// Previous source field, wrapping to the last.
    pub fn move_source_field_up(&mut self)
        requires
            old(self).wf(),
        ensures
            final(self).wf(),
            *final(self) == (McpOverlay { source_field_index: ring_prev(old(self).source_field_index, 7), ..*old(self) }),
    {
        self.source_field_index = if self.source_field_index == 0 { 6 } else { self.source_field_index - 1 };
    }

    /// Next install item, wrapping to the first.
    pub fn move_catalog_install_field_down(&mut self)
        ensures
            *final(self) == (McpOverlay {
                catalog_install_field_index: install_field_next(
                    old(self).catalog_install_field_index,
                    old(self).catalog_install_draft.items@.len(),
                ),
                ..*old(self)
            }),
    {
        let len = self.catalog_install_draft.items.len();
        if len > 0 {
            let i = self.catalog_install_field_index;
            self.catalog_install_field_index = (i % len + 1) % len;
            proof {
                let (a, m) = (i as int, len as int);
                vstd::arithmetic::div_mod::lemma_add_mod_noop(a, 1, m);
                if m > 1 {
                    vstd::arithmetic::div_mod::lemma_small_mod(1, m as nat);
                } else {
                    vstd::arithmetic::div_mod::lemma_mod_self_0(1);
                }
                assert((a % m + 1) % m == (a + 1) % m);
            }
        }
    }

    /// Previous install item, wrapping to the last.
    pub fn move_catalog_install_field_up(&mut self)
        ensures
            *final(self) == (McpOverlay {
                catalog_install_field_index: install_field_prev(
                    old(self).catalog_install_field_index,
                    old(self).catalog_install_draft.items@.len(),
                ),
                ..*old(self)
            }),
    {
        let len = self.catalog_install_draft.items.len();
        if len == 0 {
            return;
        }
        self.catalog_install_field_index = if self.catalog_install_field_index == 0 {
            len - 1
        } else {
            self.catalog_install_field_index - 1
        };
    }

    /// A key in the server editor.
    pub fn handle_server_editor_key(&mut self, key: KeyInput) -> (cmds: Vec<Command>)
        requires
            old(self).wf(),
        ensures
            final(self).wf(),
            server_editor_ok(*old(self), *final(self), key, cmds@),
    {
        match key.code {
            KeyCode::Tab | KeyCode::Down => self.move_server_field_down(),
            KeyCode::BackTab | KeyCode::Up => self.move_server_field_up(),
            KeyCode::Esc => self.mode = McpOverlayMode::List,
            KeyCode::Backspace => {
                let f = self.current_server_field();
                self.server_draft.backspace(f);
            },
            KeyCode::Delete => {
                let f = self.current_server_field();
                self.server_draft.clear_field(f);
            },
            KeyCode::Enter => {
                if let Some(input) = self.server_draft.to_input() {
                    self.mode = McpOverlayMode::List;
                    return vec![Command::SaveMcpServerSettings { input }];
                }
            },
            KeyCode::Char(ch) => {
                if !key.control {
                    let f = self.current_server_field();
                    self.server_draft.push_char(f, ch);
                }
            },
            _ => {},
        }
        Vec::new()
    }

    /// A key in the source editor.
    pub fn handle_source_editor_key(&mut self, key: KeyInput) -> (cmds: Vec<Command>)
        requires
            old(self).wf(),
        ensures
            final(self).wf(),
            source_editor_ok(*old(self), *final(self), key, cmds@),
    {
        match key.code {
            KeyCode::Tab | KeyCode::Down => self.move_source_field_down(),
            KeyCode::BackTab | KeyCode::Up => self.move_source_field_up(),
            KeyCode::Esc => self.mode = McpOverlayMode::List,
            KeyCode::Backspace => {
                let f = self.current_source_field();
                self.source_draft.backspace(f);
            },
            KeyCode::Delete => {
                let f = self.current_source_field();
                self.source_draft.clear_field(f);
            },
            KeyCode::Enter => {
                if let Some(request) = self.source_draft.to_request() {
                    self.mode = McpOverlayMode::List;
                    return vec![Command::AddMcpCatalogSource { request }];
                }
            },
            KeyCode::Char(ch) => {
                if !key.control {
                    let f = self.current_source_field();
                    self.source_draft.push_char(f, ch);
                }
            },
            _ => {},
        }
        Vec::new()
    }

    /// A key in the install configuration form.
    pub fn handle_catalog_install_config_key(&mut self, key: KeyInput) -> (cmds: Vec<Command>)
        requires
            old(self).wf(),
        ensures
            final(self).wf(),
            install_config_ok(*old(self), *final(self), key, cmds@),
    {
        let i = self.catalog_install_field_index;
        match key.code {
            KeyCode::Tab | KeyCode::Down => self.move_catalog_install_field_down(),
            KeyCode::BackTab | KeyCode::Up => self.move_catalog_install_field_up(),
            KeyCode::Esc => self.mode = McpOverlayMode::List,
            KeyCode::Backspace => self.catalog_install_draft.backspace(i),
            KeyCode::Delete => self.catalog_install_draft.clear_field(i),
            KeyCode::Enter => {
                if let Some(request) = self.catalog_install_draft.to_request() {
                    self.mode = McpOverlayMode::List;
                    self.mark_catalog_install_started(&request);
                    return vec![Command::InstallMcpServer { request }];
                }
            },
            KeyCode::Char(ch) => {
                if !key.control {
                    self.catalog_install_draft.push_char(i, ch);
                }
            },
            _ => {},
        }
        Vec::new()
    }
}

} // verus!
