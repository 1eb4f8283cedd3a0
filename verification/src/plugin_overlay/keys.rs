//! Keys and effects of the plugin overlay.

use vstd::prelude::*;

use crate::commands::Command;
use crate::context::EventContext;
use crate::effects::CrossPanelEffect;
use crate::keys::{KeyCode, KeyInput};
use crate::mcp_overlay::events::opt_seq;
use crate::mcp_overlay::keys::is_either;
use crate::mcp_overlay::state::pick;
use crate::plugin_overlay::state::{
    current_len_spec, current_selected_spec, dismissed, ensure_spec, next_filter_ok,
    select_current_spec, shown, PluginOverlay,
};
use crate::plugin_overlay::types::{
    ConfigScope, InstallPluginRequest, PluginInstallTarget, PluginOverlayMode, PluginTab,
};
use crate::selection::{down_spec, step_down, step_up, up_spec};
use crate::text::{pop_char, pop_seq, push_char};

verus! {

/// The overlay after one step down in the current list.
pub open spec fn move_down_spec(o: PluginOverlay) -> PluginOverlay {
    let len = current_len_spec(o);
    if len == 0 { o } else { select_current_spec(o, down_spec(len, current_selected_spec(o))) }
}

/// The overlay after one step up in the current list.
pub open spec fn move_up_spec(o: PluginOverlay) -> PluginOverlay {
    let len = current_len_spec(o);
    if len == 0 { o } else { select_current_spec(o, up_spec(len, current_selected_spec(o))) }
}

/// The other install target.
pub open spec fn other_target(t: PluginInstallTarget) -> PluginInstallTarget {
    match t {
        PluginInstallTarget::User => PluginInstallTarget::Project,
        PluginInstallTarget::Project => PluginInstallTarget::User,
    }
}

/// `n` is `o` after `key` in the catalog search, and `done` tells whether
/// the search ended: Enter or Esc end it; Backspace erases; Ctrl+U clears;
/// a character typed without Control or Alt is appended.
pub open spec fn search_key_ok(o: PluginOverlay, n: PluginOverlay, key: KeyInput, done: bool) -> bool {
    let with_kw = n == PluginOverlay { catalog_keyword: n.catalog_keyword, ..o };
    match key.code {
        KeyCode::Enter | KeyCode::Esc => done && n == PluginOverlay { mode: PluginOverlayMode::List, ..o },
        KeyCode::Backspace => !done && with_kw && n.catalog_keyword@ == pop_seq(o.catalog_keyword@),
        KeyCode::Char(ch) => !done && if key.control {
            if ch == 'u' { with_kw && n.catalog_keyword@.len() == 0 } else { n == o }
        } else if key.alt {
            n == o
        } else {
            with_kw && n.catalog_keyword@ == o.catalog_keyword@.push(ch)
        },
        _ => !done && n == o,
    }
}

/// The command a key asks for on the current tab (switching the install
/// target asks for none); plugins of the built-in scope are not changed.
pub open spec fn tab_command_spec(o: PluginOverlay, code: KeyCode) -> Option<Command> {
    match o.tab {
        PluginTab::Installed => match pick(o.plugins@, o.plugins_state.index) {
            Some(p) => if p.scope == ConfigScope::Builtin {
                None
            } else if is_either(code, 'e', 'E') {
                Some(Command::SetPluginEnabled { settings_id: p.settings_id, enabled: !p.enabled })
            } else if is_either(code, 'x', 'X') || code == KeyCode::Delete {
                Some(Command::DeletePluginSettings { settings_id: p.settings_id })
            } else {
                None
            },
            None => None,
        },
        PluginTab::Catalog => if is_either(code, 'i', 'I') {
            match pick(o.catalog@, o.catalog_state.index) {
                Some(e) => Some(Command::InstallPlugin {
                    request: InstallPluginRequest { marketplace_id: e.marketplace_id, plugin_name: e.name, target: o.install_target },
                }),
                None => None,
            }
        } else {
            None
        },
        PluginTab::Sources => if is_either(code, 'e', 'E') {
            match pick(o.sources@, o.sources_state.index) {
                Some(s) => Some(Command::SetPluginMarketplaceSourceEnabled { source_id: s.id, enabled: !s.enabled }),
                None => None,
            }
        } else {
            None
        },
    }
}

/// The overlay after a tab command: `t` on the catalog switches the
/// install target; other keys change nothing.
pub open spec fn tab_state_spec(o: PluginOverlay, code: KeyCode) -> PluginOverlay {
    if o.tab == PluginTab::Catalog && is_either(code, 't', 'T') {
        PluginOverlay { install_target: other_target(o.install_target), ..o }
    } else {
        o
    }
}

/// What a key does while the lists are shown.
pub open spec fn list_key_ok(
    o: PluginOverlay,
    n: PluginOverlay,
    code: KeyCode,
    effects: Seq<CrossPanelEffect>,
    cmds: Seq<Command>,
) -> bool {
    let quiet = effects.len() == 0 && cmds.len() == 0;
    if code == KeyCode::Tab {
        quiet && n == ensure_spec(PluginOverlay { tab: n.tab, ..o }) && n.tab == match o.tab {
            PluginTab::Installed => PluginTab::Catalog,
            PluginTab::Catalog => PluginTab::Sources,
            PluginTab::Sources => PluginTab::Installed,
        }
    } else if code == KeyCode::BackTab {
        quiet && n == ensure_spec(PluginOverlay { tab: n.tab, ..o }) && n.tab == match o.tab {
            PluginTab::Installed => PluginTab::Sources,
            PluginTab::Catalog => PluginTab::Installed,
            PluginTab::Sources => PluginTab::Catalog,
        }
    } else if code == KeyCode::Char('j') || code == KeyCode::Down {
        quiet && n == move_down_spec(o)
    } else if code == KeyCode::Char('k') || code == KeyCode::Up {
        quiet && n == move_up_spec(o)
    } else if code == KeyCode::Char('/') && o.tab == PluginTab::Catalog {
        quiet && n == PluginOverlay { mode: PluginOverlayMode::CatalogSearch, ..o }
    } else if is_either(code, 's', 'S') && o.tab == PluginTab::Catalog {
        &&& effects.len() == 0
        &&& cmds == seq![Command::OpenPluginsOverlay]
        &&& next_filter_ok(o.sources@, o.catalog_marketplace_filter, n.catalog_marketplace_filter)
        &&& if o.sources@.len() == 0 {
            n == PluginOverlay { catalog_marketplace_filter: None, ..o }
        } else {
            n == ensure_spec(PluginOverlay { catalog_marketplace_filter: n.catalog_marketplace_filter, ..o })
        }
    } else if code == KeyCode::Esc {
        cmds.len() == 0 && effects == seq![CrossPanelEffect::DismissPluginsOverlay] && dismissed(o, n)
    } else if is_either(code, 'r', 'R') {
        effects.len() == 0 && n == o && cmds == seq![Command::OpenPluginsOverlay]
    } else {
        effects.len() == 0 && n == tab_state_spec(o, code) && cmds == opt_seq(tab_command_spec(o, code))
    }
}

impl PluginOverlay {
    /// One step down in the current list.
    pub fn move_down(&mut self)
        ensures
            *final(self) == move_down_spec(*old(self)),
    {
        let len = self.current_len();
        if len == 0 {
            return;
        }
        let next = step_down(len, self.current_selected());
        self.select_current(next);
    }

    /// One step up in the current list.
    pub fn move_up(&mut self)
        ensures
            *final(self) == move_up_spec(*old(self)),
    {
        let len = self.current_len();
        if len == 0 {
            return;
        }
        let next = step_up(len, self.current_selected());
        self.select_current(next);
    }

    /// A key in the catalog search; tells whether the search ended.
    pub fn handle_catalog_search_key(&mut self, key: KeyInput) -> (done: bool)
        ensures
            search_key_ok(*old(self), *final(self), key, done),
    {
        match key.code {
            KeyCode::Enter | KeyCode::Esc => {
                self.mode = PluginOverlayMode::List;
                true
            },
            KeyCode::Backspace => {
                pop_char(&mut self.catalog_keyword);
                false
            },
            KeyCode::Char(ch) => {
                if key.control {
                    if ch == 'u' {
                        self.catalog_keyword = String::new();
                    }
                } else if !key.alt {
                    push_char(&mut self.catalog_keyword, ch);
                }
                false
            },
            _ => false,
        }
    }

    /// Switches between installing for the user and for the project.
    pub fn toggle_install_target(&mut self)
        ensures
            *final(self) == (PluginOverlay { install_target: other_target(old(self).install_target), ..*old(self) }),
    {
        self.install_target = match self.install_target {
            PluginInstallTarget::User => PluginInstallTarget::Project,
            PluginInstallTarget::Project => PluginInstallTarget::User,
        };
    }

    /// The command a key asks for on the current tab.
    pub fn command_for_current_tab(&mut self, code: KeyCode) -> (r: Option<Command>)
        ensures
            r == tab_command_spec(*old(self), code),
            *final(self) == tab_state_spec(*old(self), code),
    {
        match self.tab {
            PluginTab::Installed => {
                let p = match self.selected_plugin() {
                    Some(p) => p,
                    None => return None,
                };
                if p.scope == ConfigScope::Builtin {
                    None
                } else if code == KeyCode::Char('e') || code == KeyCode::Char('E') {
                    Some(Command::SetPluginEnabled { settings_id: p.settings_id.clone(), enabled: !p.enabled })
                } else if code == KeyCode::Char('x') || code == KeyCode::Char('X') || code == KeyCode::Delete {
                    Some(Command::DeletePluginSettings { settings_id: p.settings_id.clone() })
                } else {
                    None
                }
            },
            PluginTab::Catalog => {
                if code == KeyCode::Char('i') || code == KeyCode::Char('I') {
                    match self.selected_catalog_entry() {
                        Some(e) => Some(Command::InstallPlugin {
                            request: InstallPluginRequest {
                                marketplace_id: e.marketplace_id.clone(),
                                plugin_name: e.name.clone(),
                                target: self.install_target,
                            },
                        }),
                        None => None,
                    }
                } else if code == KeyCode::Char('t') || code == KeyCode::Char('T') {
                    self.toggle_install_target();
                    None
                } else {
                    None
                }
            },
            PluginTab::Sources => {
                if code == KeyCode::Char('e') || code == KeyCode::Char('E') {
                    match self.selected_source() {
                        Some(s) => Some(Command::SetPluginMarketplaceSourceEnabled { source_id: s.id.clone(), enabled: !s.enabled }),
                        None => None,
                    }
                } else {
                    None
                }
            },
        }
    }

    /// A key press. A hidden overlay ignores it; in the catalog search the
    /// keys edit the keyword and ending the search reloads the overlay.
    pub fn handle_event(&mut self, ctx: &EventContext, key: KeyInput) -> (out: (Vec<CrossPanelEffect>, Vec<Command>))
        ensures
            !old(self).visible ==> *final(self) == *old(self) && out.0@.len() == 0 && out.1@.len() == 0,
            old(self).visible && old(self).mode == PluginOverlayMode::CatalogSearch ==> out.0@.len() == 0
                && exists|done: bool| #[trigger] search_key_ok(*old(self), *final(self), key, done)
                    && out.1@ == if done { seq![Command::OpenPluginsOverlay] } else { Seq::<Command>::empty() },
            old(self).visible && old(self).mode == PluginOverlayMode::List ==> list_key_ok(
                *old(self),
                *final(self),
                key.code,
                out.0@,
                out.1@,
            ),
    {
        if !self.visible {
            return (Vec::new(), Vec::new());
        }
        if self.mode == PluginOverlayMode::CatalogSearch {
            let done = self.handle_catalog_search_key(key);
            if done {
                let cmds = vec![Command::OpenPluginsOverlay];
                assert(cmds@ =~= seq![Command::OpenPluginsOverlay]);
                return (Vec::new(), cmds);
            }
            let cmds: Vec<Command> = Vec::new();
            assert(cmds@ =~= Seq::<Command>::empty());
            return (Vec::new(), cmds);
        }
        let code = key.code;
        if code == KeyCode::Tab {
            self.tab = self.tab.next();
            self.ensure_selection();
        } else if code == KeyCode::BackTab {
            self.tab = self.tab.previous();
            self.ensure_selection();
        } else if code == KeyCode::Char('j') || code == KeyCode::Down {
            self.move_down();
        } else if code == KeyCode::Char('k') || code == KeyCode::Up {
            self.move_up();
        } else if code == KeyCode::Char('/') && self.tab == PluginTab::Catalog {
            self.mode = PluginOverlayMode::CatalogSearch;
        } else if (code == KeyCode::Char('s') || code == KeyCode::Char('S')) && self.tab == PluginTab::Catalog {
            self.cycle_catalog_marketplace_filter();
            let cmds = vec![Command::OpenPluginsOverlay];
            assert(cmds@ =~= seq![Command::OpenPluginsOverlay]);
            return (Vec::new(), cmds);
        } else if code == KeyCode::Esc {
            self.dismiss();
            let effects = vec![CrossPanelEffect::DismissPluginsOverlay];
            assert(effects@ =~= seq![CrossPanelEffect::DismissPluginsOverlay]);
            return (effects, Vec::new());
        } else if code == KeyCode::Char('r') || code == KeyCode::Char('R') {
            let cmds = vec![Command::OpenPluginsOverlay];
            assert(cmds@ =~= seq![Command::OpenPluginsOverlay]);
            return (Vec::new(), cmds);
        } else {
            let ghost before = *self;
            let cmds: Vec<Command> = match self.command_for_current_tab(code) {
                Some(c) => {
                    let ghost g = c;
                    let v = vec![c];
                    assert(v@ =~= seq![g]);
                    v
                },
                None => Vec::new(),
            };
            assert(cmds@ =~= opt_seq(tab_command_spec(before, code)));
            return (Vec::new(), cmds);
        }
        (Vec::new(), Vec::new())
    }

    /// An effect from another panel.
    pub fn handle_effect(&mut self, effect: CrossPanelEffect)
        ensures
            match effect {
                CrossPanelEffect::ShowPluginsOverlay(s) => shown(*old(self), *final(self), s),
                CrossPanelEffect::DismissPluginsOverlay => dismissed(*old(self), *final(self)),
                _ => *final(self) == *old(self),
            },
    {
        match effect {
            CrossPanelEffect::ShowPluginsOverlay(snapshot) => self.show(snapshot),
            CrossPanelEffect::DismissPluginsOverlay => self.dismiss(),
            _ => {},
        }
    }

    /// Whether the overlay has keyboard focus.
    pub fn focused(&self) -> (b: bool)
        ensures
            b == self.focused,
    {
        self.focused
    }

    /// Gives or takes keyboard focus.
    pub fn set_focused(&mut self, focused: bool)
        ensures
            *final(self) == (PluginOverlay { focused, ..*old(self) }),
    {
        self.focused = focused;
    }
}

} // verus!
