//! Keys of the MCP overlay: moving in the lists, the catalog filter, and the
//! command that a key asks for on each tab.

use vstd::prelude::*;

use crate::commands::Command;
use crate::keys::{KeyCode, KeyInput};
use crate::mcp_overlay::state::{
    current_len_spec, current_selected_spec, ensure_spec, pick, select_current_spec, sel_server,
    tools_spec, resources_spec, McpOverlay,
};
use crate::mcp_overlay::types::{McpOverlayMode, McpOverlayTab, McpServerStatusView};
use crate::selection::{down_spec, step_down, step_up, up_spec};
use crate::text::{pop_char, pop_seq, push_char, str_eq};

verus! {

/// `code` is the character `a` or the character `b`.
pub open spec fn is_either(code: KeyCode, a: char, b: char) -> bool {
    code == KeyCode::Char(a) || code == KeyCode::Char(b)
}

/// The command that `code` asks for on the current tab, if any.
pub open spec fn tab_command_spec(o: McpOverlay, code: KeyCode) -> Option<Command> {
    match o.tab {
        McpOverlayTab::Runtime => match sel_server(o) {
            None => None,
            Some(e) => if code == KeyCode::Enter {
                Some(match e.status {
                    McpServerStatusView::Running | McpServerStatusView::Starting => Command::StopMcpServer {
                        server_id: e.server_id,
                    },
                    _ => Command::StartMcpServer { server_id: e.server_id },
                })
            } else if is_either(code, 't', 'T') {
                Some(if e.trusted {
                    Command::RevokeMcpTrust { server_id: e.server_id }
                } else {
                    Command::TrustMcpServer { server_id: e.server_id }
                })
            } else if is_either(code, 'h', 'H') {
                Some(Command::CheckMcpHealth { server_id: e.server_id })
            } else if is_either(code, 'c', 'C') {
                Some(Command::TestMcpConnectivity { server_id: e.server_id })
            } else if is_either(code, 'r', 'R') {
                Some(Command::RefreshMcpTools { server_id: e.server_id })
            } else {
                None
            },
        },
        McpOverlayTab::Tools => if is_either(code, 'r', 'R') {
            match sel_server(o) {
                Some(e) => Some(Command::CheckMcpHealth { server_id: e.server_id }),
                None => None,
            }
        } else if is_either(code, 'e', 'E') || code == KeyCode::Enter {
            match pick(tools_spec(o), o.tools_state.index) {
                Some(t) => Some(Command::SetMcpToolDisabled { server_id: t.server_id, tool_name: t.name, disabled: !t.disabled }),
                None => None,
            }
        } else {
            None
        },
        McpOverlayTab::Resources => if is_either(code, 'r', 'R') {
            match sel_server(o) {
                Some(e) => Some(Command::ListMcpResources { server_id: e.server_id }),
                None => None,
            }
        } else if code == KeyCode::Enter {
            match pick(resources_spec(o), o.resources_state.index) {
                Some(r) => Some(Command::ReadMcpResource { server_id: r.server_id, uri: r.uri }),
                None => None,
            }
        } else {
            None
        },
        McpOverlayTab::Prompts => if is_either(code, 'r', 'R') {
            match sel_server(o) {
                Some(e) => Some(Command::ListMcpPrompts { server_id: e.server_id }),
                None => None,
            }
        } else {
            None
        },
        McpOverlayTab::Settings => if is_either(code, 'o', 'O') {
            Some(Command::OpenMcpConfig)
        } else {
            match pick(o.settings@, o.settings_state.index) {
                None => None,
                Some(s) => if is_either(code, 'e', 'E') {
                    if s.writable { Some(Command::SetMcpServerEnabled { server_id: s.id, enabled: !s.enabled }) } else { None }
                } else if is_either(code, 'd', 'D') {
                    Some(Command::DisableMcpServerAtScope { server_id: s.id })
                } else if is_either(code, 'a', 'A') {
                    Some(Command::EnableMcpServerAtScope { server_id: s.id })
                } else if is_either(code, 'x', 'X') || code == KeyCode::Delete {
                    if s.writable { Some(Command::DeleteMcpServerSettings { server_id: s.id }) } else { None }
                } else {
                    None
                },
            }
        },
        McpOverlayTab::Installed => if is_either(code, 'x', 'X') || is_either(code, 'u', 'U') {
            match pick(o.installed@, o.installed_state.index) {
                Some(e) => Some(Command::UninstallMcpServer { server_id: e.server_id }),
                None => None,
            }
        } else {
            None
        },
        McpOverlayTab::Sources => if is_either(code, 'o', 'O') {
            Some(Command::OpenMcpConfig)
        } else {
            match pick(o.sources@, o.sources_state.index) {
                None => None,
                Some(s) => if is_either(code, 'e', 'E') {
                    Some(Command::SetMcpCatalogSourceEnabled { source_id: s.id, enabled: !s.enabled })
                } else if is_either(code, 'x', 'X') || code == KeyCode::Delete {
                    if s.id@ != "builtin"@ { Some(Command::RemoveMcpCatalogSource { source_id: s.id }) } else { None }
                } else {
                    None
                },
            }
        },
        McpOverlayTab::Catalog => None,
    }
}

/// The overlay after one step down in the current list.
pub open spec fn move_down_spec(o: McpOverlay) -> McpOverlay {
    let len = current_len_spec(o);
    if len == 0 { o } else { select_current_spec(o, down_spec(len, current_selected_spec(o))) }
}

/// The overlay after one step up in the current list.
pub open spec fn move_up_spec(o: McpOverlay) -> McpOverlay {
    let len = current_len_spec(o);
    if len == 0 { o } else { select_current_spec(o, up_spec(len, current_selected_spec(o))) }
}

/// `n` is `o` with the catalog keyword of `n`, selections kept in range.
pub open spec fn keyword_changed(o: McpOverlay, n: McpOverlay) -> bool {
    n == ensure_spec(McpOverlay { catalog_keyword: n.catalog_keyword, ..o })
}

/// `n` is `o` after `key` in the catalog filter: Enter or Esc leaves the
/// filter; Backspace drops the keyword's last character; Delete or Ctrl+U
/// clears it; another character without Control is appended.
pub open spec fn filter_key_ok(o: McpOverlay, n: McpOverlay, key: KeyInput) -> bool {
    match key.code {
        KeyCode::Enter | KeyCode::Esc => n == McpOverlay { mode: McpOverlayMode::List, ..o },
        KeyCode::Backspace => keyword_changed(o, n) && n.catalog_keyword@ == pop_seq(o.catalog_keyword@),
        KeyCode::Delete => keyword_changed(o, n) && n.catalog_keyword@.len() == 0,
        KeyCode::Char(ch) => if key.control {
            if ch == 'u' { keyword_changed(o, n) && n.catalog_keyword@.len() == 0 } else { n == o }
        } else {
            keyword_changed(o, n) && n.catalog_keyword@ == o.catalog_keyword@.push(ch)
        },
        _ => n == o,
    }
}

impl McpOverlay {
    /// One step down in the current list, stopping at the last row.
    pub fn move_down(&mut self)
        requires
            old(self).wf(),
        ensures
            final(self).wf(),
            *final(self) == move_down_spec(*old(self)),
    {
        let len = self.current_len();
        if len == 0 {
            return;
        }
        let next = step_down(len, self.current_selected());
        self.select_current(next);
    }

    /// One step up in the current list, stopping at the first row.
    pub fn move_up(&mut self)
        requires
            old(self).wf(),
        ensures
            final(self).wf(),
            *final(self) == move_up_spec(*old(self)),
    {
        let len = self.current_len();
        if len == 0 {
            return;
        }
        let next = step_up(len, self.current_selected());
        self.select_current(next);
    }

    /// A key while the catalog keyword is being typed.
    pub fn handle_catalog_filter_key(&mut self, key: KeyInput)
        requires
            old(self).wf(),
        ensures
            final(self).wf(),
            filter_key_ok(*old(self), *final(self), key),
    {
        match key.code {
            KeyCode::Enter | KeyCode::Esc => {
                self.mode = McpOverlayMode::List;
            },
            KeyCode::Backspace => {
                pop_char(&mut self.catalog_keyword);
                self.ensure_selection();
            },
            KeyCode::Delete => {
                self.catalog_keyword = String::new();
                self.ensure_selection();
            },
            KeyCode::Char(ch) => {
                if key.control {
                    if ch == 'u' {
                        self.catalog_keyword = String::new();
                        self.ensure_selection();
                    }
                } else {
                    push_char(&mut self.catalog_keyword, ch);
                    self.ensure_selection();
                }
            },
            _ => {},
        }
    }

    /// The command that `code` asks for on the current tab, if any.
    pub fn command_for_current_tab(&self, code: KeyCode) -> (r: Option<Command>)
        requires
            self.wf(),
        ensures
            r == tab_command_spec(*self, code),
    {
        let is = |a: char, b: char| -> (r: bool)
            ensures
                r == is_either(code, a, b),
            { code == KeyCode::Char(a) || code == KeyCode::Char(b) };
        match self.tab {
            McpOverlayTab::Runtime => {
                let e = match self.selected_runtime_server() {
                    Some(e) => e,
                    None => return None,
                };
                let server_id = e.server_id.clone();
                if code == KeyCode::Enter {
                    match e.status {
                        McpServerStatusView::Running | McpServerStatusView::Starting => Some(
                            Command::StopMcpServer { server_id },
                        ),
                        _ => Some(Command::StartMcpServer { server_id }),
                    }
                } else if is('t', 'T') {
                    if e.trusted {
                        Some(Command::RevokeMcpTrust { server_id })
                    } else {
                        Some(Command::TrustMcpServer { server_id })
                    }
                } else if is('h', 'H') {
                    Some(Command::CheckMcpHealth { server_id })
                } else if is('c', 'C') {
                    Some(Command::TestMcpConnectivity { server_id })
                } else if is('r', 'R') {
                    Some(Command::RefreshMcpTools { server_id })
                } else {
                    None
                }
            },
            McpOverlayTab::Tools => {
                if is('r', 'R') {
                    match self.selected_runtime_server() {
                        Some(e) => Some(Command::CheckMcpHealth { server_id: e.server_id.clone() }),
                        None => None,
                    }
                } else if is('e', 'E') || code == KeyCode::Enter {
                    match self.selected_tool() {
                        Some(t) => Some(
                            Command::SetMcpToolDisabled {
                                server_id: t.server_id.clone(),
                                tool_name: t.name.clone(),
                                disabled: !t.disabled,
                            },
                        ),
                        None => None,
                    }
                } else {
                    None
                }
            },
            McpOverlayTab::Resources => {
                if is('r', 'R') {
                    match self.selected_runtime_server() {
                        Some(e) => Some(Command::ListMcpResources { server_id: e.server_id.clone() }),
                        None => None,
                    }
                } else if code == KeyCode::Enter {
                    match self.selected_resource() {
                        Some(r) => Some(Command::ReadMcpResource { server_id: r.server_id.clone(), uri: r.uri.clone() }),
                        None => None,
                    }
                } else {
                    None
                }
            },
            McpOverlayTab::Prompts => {
                if is('r', 'R') {
                    match self.selected_runtime_server() {
                        Some(e) => Some(Command::ListMcpPrompts { server_id: e.server_id.clone() }),
                        None => None,
                    }
                } else {
                    None
                }
            },
            McpOverlayTab::Settings => {
                if is('o', 'O') {
                    return Some(Command::OpenMcpConfig);
                }
                let s = match self.selected_setting() {
                    Some(s) => s,
                    None => return None,
                };
                if is('e', 'E') {
                    if s.writable {
                        Some(Command::SetMcpServerEnabled { server_id: s.id.clone(), enabled: !s.enabled })
                    } else {
                        None
                    }
                } else if is('d', 'D') {
                    Some(Command::DisableMcpServerAtScope { server_id: s.id.clone() })
                } else if is('a', 'A') {
                    Some(Command::EnableMcpServerAtScope { server_id: s.id.clone() })
                } else if is('x', 'X') || code == KeyCode::Delete {
                    if s.writable {
                        Some(Command::DeleteMcpServerSettings { server_id: s.id.clone() })
                    } else {
                        None
                    }
                } else {
                    None
                }
            },
            McpOverlayTab::Installed => {
                if is('x', 'X') || is('u', 'U') {
                    match self.selected_installed() {
                        Some(e) => Some(Command::UninstallMcpServer { server_id: e.server_id.clone() }),
                        None => None,
                    }
                } else {
                    None
                }
            },
            McpOverlayTab::Sources => {
                if is('o', 'O') {
                    return Some(Command::OpenMcpConfig);
                }
                let s = match self.selected_source() {
                    Some(s) => s,
                    None => return None,
                };
                if is('e', 'E') {
                    Some(Command::SetMcpCatalogSourceEnabled { source_id: s.id.clone(), enabled: !s.enabled })
                } else if is('x', 'X') || code == KeyCode::Delete {
                    if !str_eq(s.id.as_str(), "builtin") {
                        Some(Command::RemoveMcpCatalogSource { source_id: s.id.clone() })
                    } else {
                        None
                    }
                } else {
                    None
                }
            },
            McpOverlayTab::Catalog => None,
        }
    }
}

} // verus!
