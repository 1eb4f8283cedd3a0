//! State of the MCP overlay and the queries over it: the lists of each tab,
//! their selections, the catalog filter, and the install statuses.

use vstd::prelude::*;

use crate::mcp_overlay::editor::{
    CatalogInstallDraft, InstallRequest, ServerDraft, ServerDraftView, SourceDraft,
    SourceDraftView,
};
use crate::mcp_overlay::types::{
    catalog_install_key, copy_opt, min_rank_spec, pair_key, trust_rank, trust_rank_spec,
    CatalogInstallStatus, CatalogSourceView, CatalogTrustFilter, InstallOutcomeView,
    InstalledEntry, McpConnectivityEntry, McpHealthState, McpOverlayMode, McpOverlaySnapshot,
    McpOverlayTab, McpPromptEntry, McpResourceEntry, McpServerEntry, McpServerSettingsView,
    McpToolEntry, ServerEntry,
};
use crate::selection::{clamp_selection, clamp_spec, ListSelection};
use crate::text::{
    concat, contains_str, copy_str, is_blank, join, join_seq, lowercase, seq_contains, str_eq,
    to_lowercase, trim, trim_seq, views,
};
use crate::text_map::TextMap;

verus! {

/// The MCP overlay.
pub struct McpOverlay {
    pub focused: bool,
    pub visible: bool,
    pub mode: McpOverlayMode,
    pub tab: McpOverlayTab,
    pub runtime_servers: Vec<McpServerEntry>,
    pub settings: Vec<McpServerSettingsView>,
    pub installed: Vec<InstalledEntry>,
    pub catalog: Vec<ServerEntry>,
    pub sources: Vec<CatalogSourceView>,
    pub tools: TextMap<Vec<McpToolEntry>>,
    pub resources: TextMap<Vec<McpResourceEntry>>,
    pub prompts: TextMap<Vec<McpPromptEntry>>,
    pub health: TextMap<McpHealthState>,
    pub connectivity: TextMap<McpConnectivityEntry>,
    pub resource_previews: TextMap<String>,
    pub catalog_install_statuses: TextMap<CatalogInstallStatus>,
    pub catalog_keyword: String,
    pub catalog_trust_filter: CatalogTrustFilter,
    pub runtime_state: ListSelection,
    pub settings_state: ListSelection,
    pub installed_state: ListSelection,
    pub catalog_state: ListSelection,
    pub sources_state: ListSelection,
    pub tools_state: ListSelection,
    pub resources_state: ListSelection,
    pub prompts_state: ListSelection,
    pub server_draft: ServerDraft,
    pub server_field_index: usize,
    pub source_draft: SourceDraft,
    pub source_field_index: usize,
    pub catalog_install_draft: CatalogInstallDraft,
    pub catalog_install_field_index: usize,
}

impl McpOverlay {
    /// The overlay's own state: its maps keep distinct keys and the editor
    /// field cursors point at fields.
    pub open spec fn wf(&self) -> bool {
        &&& self.tools.wf()
        &&& self.resources.wf()
        &&& self.prompts.wf()
        &&& self.health.wf()
        &&& self.connectivity.wf()
        &&& self.resource_previews.wf()
        &&& self.catalog_install_statuses.wf()
        &&& self.catalog_install_draft.values.wf()
        &&& self.server_field_index < 6
        &&& self.source_field_index < 7
    }
}

/// The highlighted runtime server.
pub open spec fn sel_server(o: McpOverlay) -> Option<McpServerEntry> {
    match o.runtime_state.index {
        Some(i) => if i < o.runtime_servers@.len() { Some(o.runtime_servers@[i as int]) } else { None },
        None => None,
    }
}

/// Tools of the highlighted runtime server.
pub open spec fn tools_spec(o: McpOverlay) -> Seq<McpToolEntry> {
    match sel_server(o) {
        Some(e) => if o.tools.map().contains_key(e.server_id@) { o.tools.map()[e.server_id@]@ } else { Seq::empty() },
        None => Seq::empty(),
    }
}

/// Resources of the highlighted runtime server.
pub open spec fn resources_spec(o: McpOverlay) -> Seq<McpResourceEntry> {
    match sel_server(o) {
        Some(e) => if o.resources.map().contains_key(e.server_id@) { o.resources.map()[e.server_id@]@ } else { Seq::empty() },
        None => Seq::empty(),
    }
}

/// Prompts of the highlighted runtime server.
pub open spec fn prompts_spec(o: McpOverlay) -> Seq<McpPromptEntry> {
    match sel_server(o) {
        Some(e) => if o.prompts.map().contains_key(e.server_id@) { o.prompts.map()[e.server_id@]@ } else { Seq::empty() },
        None => Seq::empty(),
    }
}

/// Whether the catalog source `id` is enabled: the first source with that
/// id decides; an unknown source counts as enabled only when it is `builtin`.
pub open spec fn source_enabled_spec(sources: Seq<CatalogSourceView>, id: Seq<char>) -> bool
    decreases sources.len(),
{
    if sources.len() == 0 {
        id == "builtin"@
    } else if sources[0].id@ == id {
        sources[0].enabled
    } else {
        source_enabled_spec(sources.drop_first(), id)
    }
}

/// The text a catalog keyword is searched in: id, name, summary,
/// description, categories and tags, separated by spaces.
pub open spec fn haystack_spec(e: ServerEntry) -> Seq<char> {
    e.id@ + " "@ + e.display_name@ + " "@ + e.summary@ + " "@ + e.description@ + " "@ + join_seq(
        views(e.categories@),
        " "@,
    ) + " "@ + join_seq(views(e.tags@), " "@)
}

/// Whether a catalog entry passes the filters: its source is enabled, its
/// trust reaches the filter's rank, and the keyword (trimmed, compared
/// case-insensitively) occurs in its text.
pub open spec fn entry_visible_spec(o: McpOverlay, e: ServerEntry) -> bool {
    let kw = trim_seq(o.catalog_keyword@);
    &&& source_enabled_spec(o.sources@, e.source@)
    &&& match min_rank_spec(o.catalog_trust_filter) {
        Some(m) => trust_rank_spec(e.trust@) >= m,
        None => true,
    }
    &&& (kw.len() == 0 || seq_contains(lowercase(haystack_spec(e)), lowercase(kw)))
}

/// Positions of the catalog entries among the first `n` that pass the
/// filters.
pub open spec fn visible_prefix(o: McpOverlay, n: int) -> Seq<usize>
    decreases n,
{
    if n <= 0 {
        Seq::empty()
    } else {
        let rest = visible_prefix(o, n - 1);
        if entry_visible_spec(o, o.catalog@[n - 1]) { rest.push((n - 1) as usize) } else { rest }
    }
}

/// Positions of the catalog entries that pass the filters.
pub open spec fn visible_indices_spec(o: McpOverlay) -> Seq<usize> {
    visible_prefix(o, o.catalog@.len() as int)
}

/// Length of the list of the current tab.
pub open spec fn current_len_spec(o: McpOverlay) -> nat {
    match o.tab {
        McpOverlayTab::Runtime => o.runtime_servers@.len(),
        McpOverlayTab::Settings => o.settings@.len(),
        McpOverlayTab::Installed => o.installed@.len(),
        McpOverlayTab::Catalog => visible_indices_spec(o).len(),
        McpOverlayTab::Sources => o.sources@.len(),
        McpOverlayTab::Tools => tools_spec(o).len(),
        McpOverlayTab::Resources => resources_spec(o).len(),
        McpOverlayTab::Prompts => prompts_spec(o).len(),
    }
}

/// Selection of the list of the current tab.
pub open spec fn current_selected_spec(o: McpOverlay) -> Option<usize> {
    match o.tab {
        McpOverlayTab::Runtime => o.runtime_state.index,
        McpOverlayTab::Settings => o.settings_state.index,
        McpOverlayTab::Installed => o.installed_state.index,
        McpOverlayTab::Catalog => o.catalog_state.index,
        McpOverlayTab::Sources => o.sources_state.index,
        McpOverlayTab::Tools => o.tools_state.index,
        McpOverlayTab::Resources => o.resources_state.index,
        McpOverlayTab::Prompts => o.prompts_state.index,
    }
}

/// The overlay with the current tab's selection replaced.
pub open spec fn select_current_spec(o: McpOverlay, sel: Option<usize>) -> McpOverlay {
    let s = ListSelection { index: sel };
    match o.tab {
        McpOverlayTab::Runtime => McpOverlay { runtime_state: s, ..o },
        McpOverlayTab::Settings => McpOverlay { settings_state: s, ..o },
        McpOverlayTab::Installed => McpOverlay { installed_state: s, ..o },
        McpOverlayTab::Catalog => McpOverlay { catalog_state: s, ..o },
        McpOverlayTab::Sources => McpOverlay { sources_state: s, ..o },
        McpOverlayTab::Tools => McpOverlay { tools_state: s, ..o },
        McpOverlayTab::Resources => McpOverlay { resources_state: s, ..o },
        McpOverlayTab::Prompts => McpOverlay { prompts_state: s, ..o },
    }
}

/// Every tab's selection kept inside its list; the tools, resources and
/// prompts lists are those of the runtime server highlighted before.
pub open spec fn ensure_spec(o: McpOverlay) -> McpOverlay {
    McpOverlay {
        runtime_state: ListSelection { index: clamp_spec(o.runtime_servers@.len(), o.runtime_state.index) },
        settings_state: ListSelection { index: clamp_spec(o.settings@.len(), o.settings_state.index) },
        installed_state: ListSelection { index: clamp_spec(o.installed@.len(), o.installed_state.index) },
        catalog_state: ListSelection { index: clamp_spec(visible_indices_spec(o).len(), o.catalog_state.index) },
        sources_state: ListSelection { index: clamp_spec(o.sources@.len(), o.sources_state.index) },
        tools_state: ListSelection { index: clamp_spec(tools_spec(o).len(), o.tools_state.index) },
        resources_state: ListSelection { index: clamp_spec(resources_spec(o).len(), o.resources_state.index) },
        prompts_state: ListSelection { index: clamp_spec(prompts_spec(o).len(), o.prompts_state.index) },
        ..o
    }
}

/// The highlighted element of a list.
pub open spec fn pick<T>(items: Seq<T>, sel: Option<usize>) -> Option<T> {
    match sel {
        Some(i) => if i < items.len() { Some(items[i as int]) } else { None },
        None => None,
    }
}

/// The highlighted catalog entry (the selection counts visible entries).
pub open spec fn sel_catalog_spec(o: McpOverlay) -> Option<ServerEntry> {
    match pick(visible_indices_spec(o), o.catalog_state.index) {
        Some(k) => pick(o.catalog@, Some(k)),
        None => None,
    }
}

/// The status recorded by `mark_catalog_install_outcome`.
pub open spec fn outcome_status_ok(req: InstallRequest, out: InstallOutcomeView, st: CatalogInstallStatus) -> bool {
    let sid = match out.server_id {
        Some(s) => s@,
        None => match req.server_id_override {
            Some(s) => s@,
            None => req.catalog_id@,
        },
    };
    if out.kind@ == "installed"@ {
        st matches CatalogInstallStatus::Installed { server_id, started } && server_id@ == sid
            && started == match out.started { Some(b) => b, None => false }
    } else if out.kind@ == "already_installed"@ {
        st matches CatalogInstallStatus::AlreadyInstalled { server_id } && server_id@ == sid
    } else if out.kind@ == "runtime_missing"@ {
        st matches CatalogInstallStatus::RuntimeMissing { missing_runtimes } && views(missing_runtimes@) == views(out.missing_runtimes@)
    } else if out.kind@ == "invalid_env"@ {
        st matches CatalogInstallStatus::MissingEnv { missing_env_keys } && views(missing_env_keys@) == views(out.missing_env_keys@)
    } else {
        st matches CatalogInstallStatus::Failed { message } && message@ == "unexpected outcome "@ + out.kind@
    }
}

/// `n` is `o` hidden with everything it loaded dropped: lists, maps,
/// selections and editors are empty; the tab, focus and catalog filters
/// stay.
pub open spec fn dismissed(o: McpOverlay, n: McpOverlay) -> bool {
    &&& !n.visible
    &&& n.mode == McpOverlayMode::List
    &&& n.tab == o.tab
    &&& n.focused == o.focused
    &&& n.runtime_servers@.len() == 0
    &&& n.settings@.len() == 0
    &&& n.installed@.len() == 0
    &&& n.catalog@.len() == 0
    &&& n.sources@.len() == 0
    &&& n.tools.map().dom().is_empty()
    &&& n.resources.map().dom().is_empty()
    &&& n.prompts.map().dom().is_empty()
    &&& n.health.map().dom().is_empty()
    &&& n.connectivity.map().dom().is_empty()
    &&& n.resource_previews.map().dom().is_empty()
    &&& n.catalog_install_statuses.map().dom().is_empty()
    &&& n.catalog_keyword == o.catalog_keyword
    &&& n.catalog_trust_filter == o.catalog_trust_filter
    &&& n.runtime_state.index is None
    &&& n.settings_state.index is None
    &&& n.installed_state.index is None
    &&& n.catalog_state.index is None
    &&& n.sources_state.index is None
    &&& n.tools_state.index is None
    &&& n.resources_state.index is None
    &&& n.prompts_state.index is None
    &&& n.server_draft@ == ServerDraft::new_spec()
    &&& n.server_field_index == 0
    &&& n.source_draft@ == SourceDraft::new_spec()
    &&& n.source_field_index == 0
    &&& n.catalog_install_draft.catalog_id@.len() == 0
    &&& n.catalog_install_draft.source@.len() == 0
    &&& n.catalog_install_draft.display_name@.len() == 0
    &&& n.catalog_install_draft.items@.len() == 0
    &&& n.catalog_install_draft.values.map().dom().is_empty()
    &&& n.catalog_install_field_index == 0
}

/// A copy of a list of texts.
pub fn copy_strings(v: &Vec<String>) -> (r: Vec<String>)
    ensures
        views(r@) == views(v@),
{
    let mut r: Vec<String> = Vec::new();
    let mut i: usize = 0;
    while i < v.len()
        invariant
            i <= v.len(),
            r@.len() == i,
            forall|j: int| 0 <= j < i ==> #[trigger] r@[j]@ == v@[j]@,
        decreases v.len() - i,
    {
        r.push(copy_str(v[i].as_str()));
        i = i + 1;
    }
    assert(views(r@) =~= views(v@));
    r
}

impl McpOverlay {
    /// A hidden overlay on the runtime tab with nothing loaded.
    pub fn new() -> (o: McpOverlay)
        ensures
            o.wf(),
            !o.visible,
            !o.focused,
            o.mode == McpOverlayMode::List,
            o.tab == McpOverlayTab::Runtime,
            o.runtime_servers@.len() == 0,
            o.settings@.len() == 0,
            o.installed@.len() == 0,
            o.catalog@.len() == 0,
            o.sources@.len() == 0,
            o.catalog_keyword@.len() == 0,
            o.catalog_trust_filter == CatalogTrustFilter::All,
            o.runtime_state.index is None,
            o.server_draft@ == ServerDraft::new_spec(),
            o.source_draft@ == SourceDraft::new_spec(),
    {
        McpOverlay {
            focused: false,
            visible: false,
            mode: McpOverlayMode::List,
            tab: McpOverlayTab::Runtime,
            runtime_servers: Vec::new(),
            settings: Vec::new(),
            installed: Vec::new(),
            catalog: Vec::new(),
            sources: Vec::new(),
            tools: TextMap::new(),
            resources: TextMap::new(),
            prompts: TextMap::new(),
            health: TextMap::new(),
            connectivity: TextMap::new(),
            resource_previews: TextMap::new(),
            catalog_install_statuses: TextMap::new(),
            catalog_keyword: String::new(),
            catalog_trust_filter: CatalogTrustFilter::All,
            runtime_state: ListSelection::new(),
            settings_state: ListSelection::new(),
            installed_state: ListSelection::new(),
            catalog_state: ListSelection::new(),
            sources_state: ListSelection::new(),
            tools_state: ListSelection::new(),
            resources_state: ListSelection::new(),
            prompts_state: ListSelection::new(),
            server_draft: ServerDraft::new(),
            server_field_index: 0,
            source_draft: SourceDraft::new(),
            source_field_index: 0,
            catalog_install_draft: CatalogInstallDraft::new(),
            catalog_install_field_index: 0,
        }
    }

    /// Whether the overlay is shown.
    pub fn is_visible(&self) -> (b: bool)
        ensures
            b == self.visible,
    {
        self.visible
    }

    /// Shows a snapshot: the lists are replaced, the overlay opens in list
    /// mode, and every selection is kept inside its list.
    pub fn show(&mut self, snapshot: McpOverlaySnapshot)
        requires
            old(self).wf(),
        ensures
            final(self).wf(),
            *final(self) == ensure_spec(McpOverlay {
                runtime_servers: snapshot.runtime_servers,
                settings: snapshot.settings,
                installed: snapshot.installed,
                catalog: snapshot.catalog,
                sources: snapshot.sources,
                visible: true,
                mode: McpOverlayMode::List,
                ..*old(self)
            }),
    {
        self.runtime_servers = snapshot.runtime_servers;
        self.settings = snapshot.settings;
        self.installed = snapshot.installed;
        self.catalog = snapshot.catalog;
        self.sources = snapshot.sources;
        self.visible = true;
        self.mode = McpOverlayMode::List;
        self.ensure_selection();
    }

    /// Hides the overlay and drops everything it loaded.
    pub fn dismiss(&mut self)
        requires
            old(self).wf(),
        ensures
            final(self).wf(),
            dismissed(*old(self), *final(self)),
    {
        self.visible = false;
        self.runtime_servers.clear();
        self.settings.clear();
        self.installed.clear();
        self.catalog.clear();
        self.sources.clear();
        self.tools.clear();
        self.resources.clear();
        self.prompts.clear();
        self.health.clear();
        self.connectivity.clear();
        self.resource_previews.clear();
        self.catalog_install_statuses.clear();
        self.mode = McpOverlayMode::List;
        self.runtime_state.select(None);
        self.settings_state.select(None);
        self.installed_state.select(None);
        self.catalog_state.select(None);
        self.sources_state.select(None);
        self.tools_state.select(None);
        self.resources_state.select(None);
        self.prompts_state.select(None);
        self.server_draft = ServerDraft::new();
        self.server_field_index = 0;
        self.source_draft = SourceDraft::new();
        self.source_field_index = 0;
        self.catalog_install_draft = CatalogInstallDraft::new();
        self.catalog_install_field_index = 0;
    }

    /// The runtime servers.
    pub fn servers(&self) -> (r: &[McpServerEntry])
        ensures
            r@ == self.runtime_servers@,
    {
        self.runtime_servers.as_slice()
    }

    /// Number of configured servers.
    pub fn settings_len(&self) -> (n: usize)
        ensures
            n == self.settings@.len(),
    {
        self.settings.len()
    }

    /// Number of catalog entries.
    pub fn catalog_len(&self) -> (n: usize)
        ensures
            n == self.catalog@.len(),
    {
        self.catalog.len()
    }

    /// Number of catalog sources.
    pub fn sources_len(&self) -> (n: usize)
        ensures
            n == self.sources@.len(),
    {
        self.sources.len()
    }

    /// Selection of the current tab.
    pub fn selected_index(&self) -> (r: Option<usize>)
        requires
            self.wf(),
        ensures
            r == current_selected_spec(*self),
    {
        self.current_selected()
    }

    /// The highlighted runtime server.
    pub fn selected_runtime_server(&self) -> (r: Option<&McpServerEntry>)
        ensures
            r == match sel_server(*self) { Some(e) => Some(&e), None => None },
    {
        match self.runtime_state.selected() {
            Some(i) => if i < self.runtime_servers.len() { Some(&self.runtime_servers[i]) } else { None },
            None => None,
        }
    }

    /// Tools of the highlighted runtime server.
    pub fn current_tools(&self) -> (r: &[McpToolEntry])
        requires
            self.wf(),
        ensures
            r@ == tools_spec(*self),
    {
        match self.selected_runtime_server() {
            Some(e) => match self.tools.get(e.server_id.as_str()) {
                Some(v) => v.as_slice(),
                None => &[],
            },
            None => &[],
        }
    }

    /// Resources of the highlighted runtime server.
    pub fn current_resources(&self) -> (r: &[McpResourceEntry])
        requires
            self.wf(),
        ensures
            r@ == resources_spec(*self),
    {
        match self.selected_runtime_server() {
            Some(e) => match self.resources.get(e.server_id.as_str()) {
                Some(v) => v.as_slice(),
                None => &[],
            },
            None => &[],
        }
    }

    /// Prompts of the highlighted runtime server.
    pub fn current_prompts(&self) -> (r: &[McpPromptEntry])
        requires
            self.wf(),
        ensures
            r@ == prompts_spec(*self),
    {
        match self.selected_runtime_server() {
            Some(e) => match self.prompts.get(e.server_id.as_str()) {
                Some(v) => v.as_slice(),
                None => &[],
            },
            None => &[],
        }
    }

    /// Whether the catalog source is enabled (an unknown one only when it is
    /// `builtin`).
    pub fn catalog_source_enabled(&self, source_id: &str) -> (b: bool)
        ensures
            b == source_enabled_spec(self.sources@, source_id@),
    {
        let mut i: usize = 0;
        assert(self.sources@.subrange(0, self.sources@.len() as int) =~= self.sources@);
        while i < self.sources.len()
            invariant
                i <= self.sources.len(),
                source_enabled_spec(self.sources@, source_id@) == source_enabled_spec(
                    self.sources@.subrange(i as int, self.sources@.len() as int),
                    source_id@,
                ),
            decreases self.sources.len() - i,
        {
            proof {
                let s = self.sources@.subrange(i as int, self.sources@.len() as int);
                assert(s.drop_first() =~= self.sources@.subrange(i + 1, self.sources@.len() as int));
            }
            if str_eq(self.sources[i].id.as_str(), source_id) {
                return self.sources[i].enabled;
            }
            i = i + 1;
        }
        str_eq(source_id, "builtin")
    }

    /// Whether a catalog entry passes the source, trust and keyword filters.
    pub fn catalog_entry_visible(&self, entry: &ServerEntry) -> (b: bool)
        ensures
            b == entry_visible_spec(*self, *entry),
    {
        if !self.catalog_source_enabled(entry.source.as_str()) {
            return false;
        }
        match self.catalog_trust_filter.min_rank() {
            Some(m) => {
                if trust_rank(entry.trust.as_str()) < m {
                    return false;
                }
            },
            None => {},
        }
        let kw_trimmed = trim(self.catalog_keyword.as_str());
        if kw_trimmed.as_str().unicode_len() == 0 {
            return true;
        }
        let keyword = to_lowercase(kw_trimmed.as_str());
        let mut hay = concat(entry.id.as_str(), " ");
        hay = concat(hay.as_str(), entry.display_name.as_str());
        hay = concat(hay.as_str(), " ");
        hay = concat(hay.as_str(), entry.summary.as_str());
        hay = concat(hay.as_str(), " ");
        hay = concat(hay.as_str(), entry.description.as_str());
        hay = concat(hay.as_str(), " ");
        let cats = join(entry.categories.as_slice(), " ");
        hay = concat(hay.as_str(), cats.as_str());
        hay = concat(hay.as_str(), " ");
        let tags = join(entry.tags.as_slice(), " ");
        hay = concat(hay.as_str(), tags.as_str());
        let hay_lower = to_lowercase(hay.as_str());
        contains_str(hay_lower.as_str(), keyword.as_str())
    }

    /// Positions of the catalog entries that pass the filters.
    pub fn visible_catalog_indices(&self) -> (r: Vec<usize>)
        ensures
            r@ == visible_indices_spec(*self),
    {
        let mut r: Vec<usize> = Vec::new();
        let mut i: usize = 0;
        while i < self.catalog.len()
            invariant
                i <= self.catalog.len(),
                r@ == visible_prefix(*self, i as int),
            decreases self.catalog.len() - i,
        {
            if self.catalog_entry_visible(&self.catalog[i]) {
                r.push(i);
            }
            i = i + 1;
        }
        r
    }

    /// Number of catalog entries that pass the filters.
    pub fn visible_catalog_len(&self) -> (n: usize)
        ensures
            n == visible_indices_spec(*self).len(),
    {
        self.visible_catalog_indices().len()
    }

    /// The catalog entries that pass the filters, in order.
    pub fn visible_catalog_entries(&self) -> (r: Vec<&ServerEntry>)
        ensures
            r@.len() == visible_indices_spec(*self).len(),
            forall|k: int| #![trigger r@[k]] 0 <= k < r@.len() ==> visible_indices_spec(*self)[k] < self.catalog@.len()
                && *r@[k] == self.catalog@[visible_indices_spec(*self)[k] as int],
    {
        let idx = self.visible_catalog_indices();
        let mut r: Vec<&ServerEntry> = Vec::new();
        let mut k: usize = 0;
        proof {
            lemma_visible_prefix_bounded(*self, self.catalog@.len() as int);
        }
        while k < idx.len()
            invariant
                idx@ == visible_indices_spec(*self),
                forall|q: int| 0 <= q < idx@.len() ==> #[trigger] idx@[q] < self.catalog@.len(),
                k <= idx.len(),
                r@.len() == k,
                forall|q: int| #![trigger r@[q]] 0 <= q < k ==> *r@[q] == self.catalog@[idx@[q] as int],
            decreases idx.len() - k,
        {
            r.push(&self.catalog[idx[k]]);
            k = k + 1;
        }
        r
    }

    /// Whether any catalog filter hides something: a keyword, a trust
    /// filter, or an entry of a disabled source.
    pub fn catalog_filters_active(&self) -> (b: bool)
        ensures
            b == (!is_blank(self.catalog_keyword@) || self.catalog_trust_filter != CatalogTrustFilter::All
                || exists|i: int| 0 <= i < self.catalog@.len() && !source_enabled_spec(
                self.sources@,
                #[trigger] self.catalog@[i].source@,
            )),
    {
        if !crate::text::is_blank_str(self.catalog_keyword.as_str()) {
            return true;
        }
        if self.catalog_trust_filter != CatalogTrustFilter::All {
            return true;
        }
        let mut i: usize = 0;
        while i < self.catalog.len()
            invariant
                i <= self.catalog.len(),
                forall|k: int| 0 <= k < i ==> source_enabled_spec(self.sources@, #[trigger] self.catalog@[k].source@),
            decreases self.catalog.len() - i,
        {
            if !self.catalog_source_enabled(self.catalog[i].source.as_str()) {
                return true;
            }
            i = i + 1;
        }
        false
    }

    /// Length of the current tab's list.
    pub fn current_len(&self) -> (n: usize)
        requires
            self.wf(),
        ensures
            n == current_len_spec(*self),
    {
        match self.tab {
            McpOverlayTab::Runtime => self.runtime_servers.len(),
            McpOverlayTab::Settings => self.settings.len(),
            McpOverlayTab::Installed => self.installed.len(),
            McpOverlayTab::Catalog => self.visible_catalog_len(),
            McpOverlayTab::Sources => self.sources.len(),
            McpOverlayTab::Tools => self.current_tools().len(),
            McpOverlayTab::Resources => self.current_resources().len(),
            McpOverlayTab::Prompts => self.current_prompts().len(),
        }
    }

    /// Selection of the current tab's list.
    pub fn current_selected(&self) -> (r: Option<usize>)
        ensures
            r == current_selected_spec(*self),
    {
        match self.tab {
            McpOverlayTab::Runtime => self.runtime_state.selected(),
            McpOverlayTab::Settings => self.settings_state.selected(),
            McpOverlayTab::Installed => self.installed_state.selected(),
            McpOverlayTab::Catalog => self.catalog_state.selected(),
            McpOverlayTab::Sources => self.sources_state.selected(),
            McpOverlayTab::Tools => self.tools_state.selected(),
            McpOverlayTab::Resources => self.resources_state.selected(),
            McpOverlayTab::Prompts => self.prompts_state.selected(),
        }
    }

    /// Sets the selection of the current tab's list.
    pub fn select_current(&mut self, selected: Option<usize>)
        ensures
            *final(self) == select_current_spec(*old(self), selected),
    {
        match self.tab {
            McpOverlayTab::Runtime => self.runtime_state.select(selected),
            McpOverlayTab::Settings => self.settings_state.select(selected),
            McpOverlayTab::Installed => self.installed_state.select(selected),
            McpOverlayTab::Catalog => self.catalog_state.select(selected),
            McpOverlayTab::Sources => self.sources_state.select(selected),
            McpOverlayTab::Tools => self.tools_state.select(selected),
            McpOverlayTab::Resources => self.resources_state.select(selected),
            McpOverlayTab::Prompts => self.prompts_state.select(selected),
        }
    }

    /// Keeps every tab's selection inside its list.
    pub fn ensure_selection(&mut self)
        requires
            old(self).wf(),
        ensures
            *final(self) == ensure_spec(*old(self)),
    {
        let tools_len = self.current_tools().len();
        let resources_len = self.current_resources().len();
        let prompts_len = self.current_prompts().len();
        let catalog_len = self.visible_catalog_len();
        let r = clamp_selection(self.runtime_servers.len(), self.runtime_state.selected());
        self.runtime_state.select(r);
        let s = clamp_selection(self.settings.len(), self.settings_state.selected());
        self.settings_state.select(s);
        let i = clamp_selection(self.installed.len(), self.installed_state.selected());
        self.installed_state.select(i);
        let c = clamp_selection(catalog_len, self.catalog_state.selected());
        self.catalog_state.select(c);
        let so = clamp_selection(self.sources.len(), self.sources_state.selected());
        self.sources_state.select(so);
        let t = clamp_selection(tools_len, self.tools_state.selected());
        self.tools_state.select(t);
        let re = clamp_selection(resources_len, self.resources_state.selected());
        self.resources_state.select(re);
        let p = clamp_selection(prompts_len, self.prompts_state.selected());
        self.prompts_state.select(p);
    }

    /// The highlighted configured server.
    pub fn selected_setting(&self) -> (r: Option<&McpServerSettingsView>)
        ensures
            r == match pick(self.settings@, self.settings_state.index) { Some(e) => Some(&e), None => None },
    {
        match self.settings_state.selected() {
            Some(i) => if i < self.settings.len() { Some(&self.settings[i]) } else { None },
            None => None,
        }
    }

    /// The highlighted installed entry.
    pub fn selected_installed(&self) -> (r: Option<&InstalledEntry>)
        ensures
            r == match pick(self.installed@, self.installed_state.index) { Some(e) => Some(&e), None => None },
    {
        match self.installed_state.selected() {
            Some(i) => if i < self.installed.len() { Some(&self.installed[i]) } else { None },
            None => None,
        }
    }

    /// The highlighted catalog source.
    pub fn selected_source(&self) -> (r: Option<&CatalogSourceView>)
        ensures
            r == match pick(self.sources@, self.sources_state.index) { Some(e) => Some(&e), None => None },
    {
        match self.sources_state.selected() {
            Some(i) => if i < self.sources.len() { Some(&self.sources[i]) } else { None },
            None => None,
        }
    }

    /// The highlighted tool of the highlighted runtime server.
    pub fn selected_tool(&self) -> (r: Option<&McpToolEntry>)
        requires
            self.wf(),
        ensures
            r == match pick(tools_spec(*self), self.tools_state.index) { Some(e) => Some(&e), None => None },
    {
        let tools = self.current_tools();
        match self.tools_state.selected() {
            Some(i) => if i < tools.len() { Some(&tools[i]) } else { None },
            None => None,
        }
    }

    /// The highlighted resource of the highlighted runtime server.
    pub fn selected_resource(&self) -> (r: Option<&McpResourceEntry>)
        requires
            self.wf(),
        ensures
            r == match pick(resources_spec(*self), self.resources_state.index) { Some(e) => Some(&e), None => None },
    {
        let resources = self.current_resources();
        match self.resources_state.selected() {
            Some(i) => if i < resources.len() { Some(&resources[i]) } else { None },
            None => None,
        }
    }

    /// The highlighted catalog entry among those that pass the filters.
    pub fn selected_catalog_entry(&self) -> (r: Option<&ServerEntry>)
        ensures
            r == match sel_catalog_spec(*self) { Some(e) => Some(&e), None => None },
    {
        let visible = match self.catalog_state.selected() {
            Some(v) => v,
            None => return None,
        };
        let idx = self.visible_catalog_indices();
        if visible >= idx.len() {
            return None;
        }
        let k = idx[visible];
        if k < self.catalog.len() {
            Some(&self.catalog[k])
        } else {
            None
        }
    }

    /// The recorded install status of a catalog entry.
    pub fn install_status_for_entry(&self, entry: &ServerEntry) -> (r: Option<&CatalogInstallStatus>)
        requires
            self.wf(),
        ensures
            r is None <==> !self.catalog_install_statuses.map().contains_key(pair_key(entry.source@, entry.id@)),
            r matches Some(s) ==> *s == self.catalog_install_statuses.map()[pair_key(entry.source@, entry.id@)],
    {
        let key = catalog_install_key(entry.source.as_str(), entry.id.as_str());
        self.catalog_install_statuses.get(key.as_str())
    }

    /// Records that an install started.
    pub fn mark_catalog_install_started(&mut self, request: &InstallRequest)
        requires
            old(self).wf(),
        ensures
            final(self).wf(),
            *final(self) == (McpOverlay { catalog_install_statuses: final(self).catalog_install_statuses, ..*old(self) }),
            final(self).catalog_install_statuses.map() == old(self).catalog_install_statuses.map().insert(
                pair_key(request.source@, request.catalog_id@),
                CatalogInstallStatus::Installing,
            ),
    {
        let key = catalog_install_key(request.source.as_str(), request.catalog_id.as_str());
        self.catalog_install_statuses.insert(key, CatalogInstallStatus::Installing);
    }

    /// Records how an install ended.
    pub fn mark_catalog_install_outcome(&mut self, request: &InstallRequest, outcome: &InstallOutcomeView)
        requires
            old(self).wf(),
        ensures
            final(self).wf(),
            *final(self) == (McpOverlay { catalog_install_statuses: final(self).catalog_install_statuses, ..*old(self) }),
            ({
                let key = pair_key(request.source@, request.catalog_id@);
                let m = final(self).catalog_install_statuses.map();
                &&& m.contains_key(key)
                &&& m.remove(key) == old(self).catalog_install_statuses.map().remove(key)
                &&& outcome_status_ok(*request, *outcome, m[key])
            }),
    {
        let server_id = match &outcome.server_id {
            Some(s) => copy_str(s.as_str()),
            None => match &request.server_id_override {
                Some(s) => copy_str(s.as_str()),
                None => copy_str(request.catalog_id.as_str()),
            },
        };
        let kind = outcome.kind.as_str();
        let status = if str_eq(kind, "installed") {
            CatalogInstallStatus::Installed {
                server_id,
                started: match outcome.started {
                    Some(b) => b,
                    None => false,
                },
            }
        } else if str_eq(kind, "already_installed") {
            CatalogInstallStatus::AlreadyInstalled { server_id }
        } else if str_eq(kind, "runtime_missing") {
            CatalogInstallStatus::RuntimeMissing { missing_runtimes: copy_strings(&outcome.missing_runtimes) }
        } else if str_eq(kind, "invalid_env") {
            CatalogInstallStatus::MissingEnv { missing_env_keys: copy_strings(&outcome.missing_env_keys) }
        } else {
            CatalogInstallStatus::Failed { message: concat("unexpected outcome ", kind) }
        };
        let key = catalog_install_key(request.source.as_str(), request.catalog_id.as_str());
        let ghost k = key@;
        self.catalog_install_statuses.insert(key, status);
        assert(self.catalog_install_statuses.map().remove(k) =~= old(self).catalog_install_statuses.map().remove(k));
    }

    /// Records that an install failed with a message.
    pub fn mark_catalog_install_failed(&mut self, request: &InstallRequest, message: String)
        requires
            old(self).wf(),
        ensures
            final(self).wf(),
            *final(self) == (McpOverlay { catalog_install_statuses: final(self).catalog_install_statuses, ..*old(self) }),
            final(self).catalog_install_statuses.map() == old(self).catalog_install_statuses.map().insert(
                pair_key(request.source@, request.catalog_id@),
                CatalogInstallStatus::Failed { message },
            ),
    {
        let key = catalog_install_key(request.source.as_str(), request.catalog_id.as_str());
        self.catalog_install_statuses.insert(key, CatalogInstallStatus::Failed { message });
    }

    /// Moves to the next trust filter.
    pub fn cycle_catalog_trust_filter(&mut self)
        requires
            old(self).wf(),
        ensures
            *final(self) == ensure_spec(McpOverlay {
                catalog_trust_filter: match old(self).catalog_trust_filter {
                    CatalogTrustFilter::All => CatalogTrustFilter::Community,
                    CatalogTrustFilter::Community => CatalogTrustFilter::Verified,
                    CatalogTrustFilter::Verified => CatalogTrustFilter::All,
                },
                ..*old(self)
            }),
    {
        self.catalog_trust_filter = self.catalog_trust_filter.next();
        self.ensure_selection();
    }
}

proof fn lemma_visible_prefix_bounded(o: McpOverlay, n: int)
    requires
        n <= o.catalog.len(),
    ensures
        forall|q: int| 0 <= q < visible_prefix(o, n).len() ==> #[trigger] visible_prefix(o, n)[q] < n,
    decreases n,
{
    if n > 0 {
        lemma_visible_prefix_bounded(o, n - 1);
        let rest = visible_prefix(o, n - 1);
        assert forall|q: int| 0 <= q < visible_prefix(o, n).len() implies #[trigger] visible_prefix(o, n)[q] < n by {
            if q < rest.len() {
                assert(visible_prefix(o, n)[q] == rest[q]);
            }
        }
    }
}

impl ServerDraft {
    /// The empty server form.
    pub open spec fn new_spec() -> ServerDraftView {
        ServerDraftView {
            name: Seq::empty(),
            transport: crate::mcp_overlay::editor::ServerTransportDraft::Stdio,
            command: Seq::empty(),
            args_text: Seq::empty(),
            url: Seq::empty(),
            description: Seq::empty(),
            enabled: true,
        }
    }
}

impl SourceDraft {
    /// The empty source form.
    pub open spec fn new_spec() -> SourceDraftView {
        SourceDraftView {
            id: Seq::empty(),
            display_name: Seq::empty(),
            url: Seq::empty(),
            api_key_env: Seq::empty(),
            priority: "100"@,
            default_trust: "community"@,
            enabled: true,
        }
    }
}

impl Default for McpOverlay {
    /// The same as [`McpOverlay::new`].
    fn default() -> (o: Self)
        ensures
            o.wf(),
            !o.visible,
            !o.focused,
            o.mode == McpOverlayMode::List,
            o.tab == McpOverlayTab::Runtime,
            o.runtime_servers@.len() == 0,
            o.settings@.len() == 0,
            o.installed@.len() == 0,
            o.catalog@.len() == 0,
            o.sources@.len() == 0,
            o.catalog_keyword@.len() == 0,
            o.catalog_trust_filter == CatalogTrustFilter::All,
            o.runtime_state.index is None,
            o.server_draft@ == ServerDraft::new_spec(),
            o.source_draft@ == SourceDraft::new_spec(),
    {
        McpOverlay::new()
    }
}

} // verus!
