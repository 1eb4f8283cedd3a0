//! Routing of key events and cross-panel effects into the MCP overlay.

use vstd::prelude::*;

use crate::commands::Command;
use crate::context::EventContext;
use crate::effects::CrossPanelEffect;
use crate::keys::{KeyCode, KeyInput};
use crate::mcp_overlay::forms::{
    install_config_ok, install_selected_ok, server_create_ok, server_edit_ok, server_editor_ok,
    source_create_ok, source_editor_ok,
};
use crate::mcp_overlay::keys::{
    filter_key_ok, is_either, move_down_spec, move_up_spec, tab_command_spec,
};
use crate::mcp_overlay::state::{dismissed, ensure_spec, McpOverlay};
use crate::mcp_overlay::types::{
    pair_key, resource_preview_key, tab_index, CatalogTrustFilter, McpHealthState,
    McpOverlayMode, McpOverlayTab,
};

verus! {

/// The trust filter that follows `f`.
pub open spec fn next_trust_filter(f: CatalogTrustFilter) -> CatalogTrustFilter {
    match f {
        CatalogTrustFilter::All => CatalogTrustFilter::Community,
        CatalogTrustFilter::Community => CatalogTrustFilter::Verified,
        CatalogTrustFilter::Verified => CatalogTrustFilter::All,
    }
}

/// A list of at most one command.
pub open spec fn opt_seq(c: Option<Command>) -> Seq<Command> {
    match c {
        Some(c) => seq![c],
        None => Seq::empty(),
    }
}

/// What a key does while the overlay shows its lists: Tab and BackTab
/// change tab, j/k and the arrows move, `n` opens a new server (Settings)
/// or source (Sources), Enter edits the highlighted server (Settings), `/`,
/// `t` and `i` filter, change the trust filter and install (Catalog), Esc
/// closes the overlay, `r` reloads the overlay on the configuration tabs,
/// and any other key asks for the current tab's command.
pub open spec fn list_key_ok(
    o: McpOverlay,
    n: McpOverlay,
    key: KeyInput,
    effects: Seq<CrossPanelEffect>,
    cmds: Seq<Command>,
) -> bool {
    let code = key.code;
    let quiet = effects.len() == 0 && cmds.len() == 0;
    if code == KeyCode::Tab {
        quiet && tab_index(n.tab) == (tab_index(o.tab) + 1) % 8 && n == ensure_spec(McpOverlay { tab: n.tab, ..o })
    } else if code == KeyCode::BackTab {
        quiet && tab_index(n.tab) == (tab_index(o.tab) + 7) % 8 && n == ensure_spec(McpOverlay { tab: n.tab, ..o })
    } else if code == KeyCode::Char('j') || code == KeyCode::Down {
        quiet && n == move_down_spec(o)
    } else if code == KeyCode::Char('k') || code == KeyCode::Up {
        quiet && n == move_up_spec(o)
    } else if is_either(code, 'n', 'N') && o.tab == McpOverlayTab::Settings {
        quiet && server_create_ok(o, n)
    } else if code == KeyCode::Enter && o.tab == McpOverlayTab::Settings {
        quiet && server_edit_ok(o, n)
    } else if is_either(code, 'n', 'N') && o.tab == McpOverlayTab::Sources {
        quiet && source_create_ok(o, n)
    } else if code == KeyCode::Char('/') && o.tab == McpOverlayTab::Catalog {
        quiet && n == McpOverlay { mode: McpOverlayMode::CatalogFilter, ..o }
    } else if is_either(code, 't', 'T') && o.tab == McpOverlayTab::Catalog {
        quiet && n == ensure_spec(McpOverlay { catalog_trust_filter: next_trust_filter(o.catalog_trust_filter), ..o })
    } else if is_either(code, 'i', 'I') && o.tab == McpOverlayTab::Catalog {
        effects.len() == 0 && install_selected_ok(o, n, cmds)
    } else if code == KeyCode::Esc {
        cmds.len() == 0 && effects == seq![CrossPanelEffect::DismissMcpOverlay] && dismissed(o, n)
    } else if is_either(code, 'r', 'R') && (o.tab == McpOverlayTab::Settings || o.tab == McpOverlayTab::Installed
        || o.tab == McpOverlayTab::Catalog || o.tab == McpOverlayTab::Sources) {
        effects.len() == 0 && n == o && cmds == seq![Command::OpenMcpOverlay]
    } else {
        effects.len() == 0 && n == o && cmds == opt_seq(tab_command_spec(o, code))
    }
}

/// What a key does to a visible overlay, by mode.
pub open spec fn key_ok(
    o: McpOverlay,
    n: McpOverlay,
    key: KeyInput,
    effects: Seq<CrossPanelEffect>,
    cmds: Seq<Command>,
) -> bool {
    match o.mode {
        McpOverlayMode::ServerEditor => effects.len() == 0 && server_editor_ok(o, n, key, cmds),
        McpOverlayMode::SourceEditor => effects.len() == 0 && source_editor_ok(o, n, key, cmds),
        McpOverlayMode::CatalogFilter => effects.len() == 0 && cmds.len() == 0 && filter_key_ok(o, n, key),
        McpOverlayMode::CatalogInstallConfig => effects.len() == 0 && install_config_ok(o, n, key, cmds),
        McpOverlayMode::List => list_key_ok(o, n, key, effects, cmds),
    }
}

/// What an effect does to the overlay: a snapshot opens it, a dismissal
/// closes it, and loaded tools, resources, prompts, connectivity results
/// and resource previews are stored under their server.
pub open spec fn effect_ok(o: McpOverlay, n: McpOverlay, effect: CrossPanelEffect) -> bool {
    match effect {
        CrossPanelEffect::ShowMcpOverlay(s) => n == ensure_spec(McpOverlay {
            runtime_servers: s.runtime_servers,
            settings: s.settings,
            installed: s.installed,
            catalog: s.catalog,
            sources: s.sources,
            visible: true,
            mode: McpOverlayMode::List,
            ..o
        }),
        CrossPanelEffect::DismissMcpOverlay => dismissed(o, n),
        CrossPanelEffect::McpToolsLoaded { server_id, tools, healthy, error } => {
            &&& n.tools.map() == o.tools.map().insert(server_id@, tools)
            &&& n.health.map() == o.health.map().insert(
                server_id@,
                McpHealthState { healthy, tool_count: tools@.len() as usize, error },
            )
            &&& n == ensure_spec(McpOverlay { tools: n.tools, health: n.health, ..o })
        },
        CrossPanelEffect::McpConnectivityChecked(entry) => {
            &&& n.connectivity.map() == o.connectivity.map().insert(entry.server_id@, entry)
            &&& n == McpOverlay { connectivity: n.connectivity, ..o }
        },
        CrossPanelEffect::McpResourcesLoaded { server_id, resources } => {
            &&& n.resources.map() == o.resources.map().insert(server_id@, resources)
            &&& n == ensure_spec(McpOverlay { resources: n.resources, ..o })
        },
        CrossPanelEffect::McpPromptsLoaded { server_id, prompts } => {
            &&& n.prompts.map() == o.prompts.map().insert(server_id@, prompts)
            &&& n == ensure_spec(McpOverlay { prompts: n.prompts, ..o })
        },
        CrossPanelEffect::McpResourceRead { server_id, uri, preview } => {
            &&& n.resource_previews.map() == o.resource_previews.map().insert(pair_key(server_id@, uri@), preview)
            &&& n == McpOverlay { resource_previews: n.resource_previews, ..o }
        },
        _ => n == o,
    }
}

impl McpOverlay {
    /// A key press. A hidden overlay ignores it; otherwise the mode decides.
    pub fn handle_event(&mut self, ctx: &EventContext, key: KeyInput) -> (out: (Vec<CrossPanelEffect>, Vec<Command>))
        requires
            old(self).wf(),
        ensures
            final(self).wf(),
            !old(self).visible ==> *final(self) == *old(self) && out.0@.len() == 0 && out.1@.len() == 0,
            old(self).visible ==> key_ok(*old(self), *final(self), key, out.0@, out.1@),
    {
        if !self.visible {
            return (Vec::new(), Vec::new());
        }
        match self.mode {
            McpOverlayMode::ServerEditor => {
                let cmds = self.handle_server_editor_key(key);
                return (Vec::new(), cmds);
            },
            McpOverlayMode::SourceEditor => {
                let cmds = self.handle_source_editor_key(key);
                return (Vec::new(), cmds);
            },
            McpOverlayMode::CatalogFilter => {
                self.handle_catalog_filter_key(key);
                return (Vec::new(), Vec::new());
            },
            McpOverlayMode::CatalogInstallConfig => {
                let cmds = self.handle_catalog_install_config_key(key);
                return (Vec::new(), cmds);
            },
            McpOverlayMode::List => {},
        }
        let code = key.code;
        let tab = self.tab;
        if code == KeyCode::Tab {
            self.tab = self.tab.next();
            self.ensure_selection();
            (Vec::new(), Vec::new())
        } else if code == KeyCode::BackTab {
            self.tab = self.tab.previous();
            self.ensure_selection();
            (Vec::new(), Vec::new())
        } else if code == KeyCode::Char('j') || code == KeyCode::Down {
            self.move_down();
            (Vec::new(), Vec::new())
        } else if code == KeyCode::Char('k') || code == KeyCode::Up {
            self.move_up();
            (Vec::new(), Vec::new())
        } else if (code == KeyCode::Char('n') || code == KeyCode::Char('N')) && tab == McpOverlayTab::Settings {
            self.start_server_create();
            (Vec::new(), Vec::new())
        } else if code == KeyCode::Enter && tab == McpOverlayTab::Settings {
            self.start_server_edit_selected();
            (Vec::new(), Vec::new())
        } else if (code == KeyCode::Char('n') || code == KeyCode::Char('N')) && tab == McpOverlayTab::Sources {
            self.start_source_create();
            (Vec::new(), Vec::new())
        } else if code == KeyCode::Char('/') && tab == McpOverlayTab::Catalog {
            self.mode = McpOverlayMode::CatalogFilter;
            (Vec::new(), Vec::new())
        } else if (code == KeyCode::Char('t') || code == KeyCode::Char('T')) && tab == McpOverlayTab::Catalog {
            self.cycle_catalog_trust_filter();
            (Vec::new(), Vec::new())
        } else if (code == KeyCode::Char('i') || code == KeyCode::Char('I')) && tab == McpOverlayTab::Catalog {
            let cmds = self.start_catalog_install_selected();
            (Vec::new(), cmds)
        } else if code == KeyCode::Esc {
            self.dismiss();
            let effects = vec![CrossPanelEffect::DismissMcpOverlay];
            assert(effects@ =~= seq![CrossPanelEffect::DismissMcpOverlay]);
            (effects, Vec::new())
        } else if (code == KeyCode::Char('r') || code == KeyCode::Char('R')) && (tab == McpOverlayTab::Settings
            || tab == McpOverlayTab::Installed || tab == McpOverlayTab::Catalog || tab == McpOverlayTab::Sources) {
            let cmds = vec![Command::OpenMcpOverlay];
            assert(cmds@ =~= seq![Command::OpenMcpOverlay]);
            (Vec::new(), cmds)
        } else {
            match self.command_for_current_tab(code) {
                Some(c) => {
                    let ghost g = c;
                    let cmds = vec![c];
                    assert(cmds@ =~= seq![g]);
                    (Vec::new(), cmds)
                },
                None => {
                    let cmds: Vec<Command> = Vec::new();
                    assert(cmds@ =~= Seq::<Command>::empty());
                    (Vec::new(), cmds)
                },
            }
        }
    }

    /// An effect from another panel.
    pub fn handle_effect(&mut self, effect: CrossPanelEffect)
        requires
            old(self).wf(),
        ensures
            final(self).wf(),
            effect_ok(*old(self), *final(self), effect),
    {
        match effect {
            CrossPanelEffect::ShowMcpOverlay(snapshot) => self.show(snapshot),
            CrossPanelEffect::DismissMcpOverlay => self.dismiss(),
            CrossPanelEffect::McpToolsLoaded { server_id, tools, healthy, error } => {
                let tool_count = tools.len();
                let key = server_id.clone();
                self.tools.insert(server_id, tools);
                self.health.insert(key, McpHealthState { healthy, tool_count, error });
                self.ensure_selection();
            },
            CrossPanelEffect::McpConnectivityChecked(entry) => {
                let key = entry.server_id.clone();
                self.connectivity.insert(key, entry);
            },
            CrossPanelEffect::McpResourcesLoaded { server_id, resources } => {
                self.resources.insert(server_id, resources);
                self.ensure_selection();
            },
            CrossPanelEffect::McpPromptsLoaded { server_id, prompts } => {
                self.prompts.insert(server_id, prompts);
                self.ensure_selection();
            },
            CrossPanelEffect::McpResourceRead { server_id, uri, preview } => {
                let key = resource_preview_key(server_id.as_str(), uri.as_str());
                self.resource_previews.insert(key, preview);
            },
            _ => {},
        }
    }

    /// Whether the overlay has keyboard focus.
    pub fn focused(&self) -> (b: bool)
        ensures
            b == self.focused,
    {
        self.focused
    }

    /// Gives or takes keyboard focus.
    pub fn set_focused(&mut self, focused: bool)
        ensures
            *final(self) == (McpOverlay { focused, ..*old(self) }),
    {
        self.focused = focused;
    }
}

} // verus!
