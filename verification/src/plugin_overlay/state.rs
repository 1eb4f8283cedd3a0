//! State of the plugin overlay and the queries over it: the lists and
//! their selections, and the catalog filters.

use vstd::prelude::*;

use crate::mcp_overlay::state::pick;
use crate::plugin_overlay::types::{
    PluginCatalogEntry, PluginCatalogFilters, PluginInstallTarget, PluginMarketplaceSourceView,
    PluginOverlayMode, PluginOverlaySnapshot, PluginSettingsView, PluginTab,
};
use crate::selection::{clamp_selection, clamp_spec, ListSelection};
use crate::text::{copy_str, is_blank, str_eq, trim_option, trim_seq};

verus! {

/// The plugin overlay.
pub struct PluginOverlay {
    pub focused: bool,
    pub visible: bool,
    pub mode: PluginOverlayMode,
    pub tab: PluginTab,
    pub plugins: Vec<PluginSettingsView>,
    pub catalog: Vec<PluginCatalogEntry>,
    pub sources: Vec<PluginMarketplaceSourceView>,
    pub install_target: PluginInstallTarget,
    pub catalog_keyword: String,
    pub catalog_marketplace_filter: Option<String>,
    pub plugins_state: ListSelection,
    pub catalog_state: ListSelection,
    pub sources_state: ListSelection,
}

/// Every tab's selection kept inside its list.
pub open spec fn ensure_spec(o: PluginOverlay) -> PluginOverlay {
    PluginOverlay {
        plugins_state: ListSelection { index: clamp_spec(o.plugins@.len(), o.plugins_state.index) },
        catalog_state: ListSelection { index: clamp_spec(o.catalog@.len(), o.catalog_state.index) },
        sources_state: ListSelection { index: clamp_spec(o.sources@.len(), o.sources_state.index) },
        ..o
    }
}

/// Length of the current tab's list.
pub open spec fn current_len_spec(o: PluginOverlay) -> nat {
    match o.tab {
        PluginTab::Installed => o.plugins@.len(),
        PluginTab::Catalog => o.catalog@.len(),
        PluginTab::Sources => o.sources@.len(),
    }
}

/// Selection of the current tab's list.
pub open spec fn current_selected_spec(o: PluginOverlay) -> Option<usize> {
    match o.tab {
        PluginTab::Installed => o.plugins_state.index,
        PluginTab::Catalog => o.catalog_state.index,
        PluginTab::Sources => o.sources_state.index,
    }
}

/// The overlay with the current tab's selection replaced.
pub open spec fn select_current_spec(o: PluginOverlay, sel: Option<usize>) -> PluginOverlay {
    let s = ListSelection { index: sel };
    match o.tab {
        PluginTab::Installed => PluginOverlay { plugins_state: s, ..o },
        PluginTab::Catalog => PluginOverlay { catalog_state: s, ..o },
        PluginTab::Sources => PluginOverlay { sources_state: s, ..o },
    }
}

/// The position of the first source, from position `i` on, with a given
/// id.
pub open spec fn source_position_from(sources: Seq<PluginMarketplaceSourceView>, id: Seq<char>, i: int) -> Option<int>
    decreases sources.len() - i,
{
    if i < 0 || i >= sources.len() {
        None
    } else if sources[i].id@ == id {
        Some(i)
    } else {
        source_position_from(sources, id, i + 1)
    }
}

/// The position of the first source with a given id.
pub open spec fn source_position(sources: Seq<PluginMarketplaceSourceView>, id: Seq<char>) -> Option<int> {
    source_position_from(sources, id, 0)
}

/// The marketplace filter kept only while its source is still listed.
pub open spec fn reconciled(filter: Option<String>, sources: Seq<PluginMarketplaceSourceView>) -> Option<String> {
    match filter {
        Some(id) => if source_position(sources, id@) is Some { Some(id) } else { None },
        None => None,
    }
}

/// `n` is `o` showing `s`: the lists replaced, the marketplace filter
/// dropped when its source is gone, every selection in range.
pub open spec fn shown(o: PluginOverlay, n: PluginOverlay, s: PluginOverlaySnapshot) -> bool {
    n == ensure_spec(PluginOverlay {
        plugins: s.plugins,
        catalog: s.catalog,
        sources: s.sources,
        install_target: s.install_target,
        visible: true,
        mode: PluginOverlayMode::List,
        catalog_marketplace_filter: reconciled(o.catalog_marketplace_filter, s.sources@),
        ..o
    })
}

/// `n` is `o` hidden with its lists and selections dropped.
pub open spec fn dismissed(o: PluginOverlay, n: PluginOverlay) -> bool {
    &&& n == PluginOverlay {
        visible: false,
        mode: PluginOverlayMode::List,
        plugins: n.plugins,
        catalog: n.catalog,
        sources: n.sources,
        plugins_state: ListSelection { index: None },
        catalog_state: ListSelection { index: None },
        sources_state: ListSelection { index: None },
        ..o
    }
    &&& n.plugins@.len() == 0
    &&& n.catalog@.len() == 0
    &&& n.sources@.len() == 0
}

/// The marketplace filter after one step of cycling: none without sources;
/// from none to the first source; from a source to the next one, and from
/// the last (or an unknown one) back to none.
pub open spec fn next_filter_ok(sources: Seq<PluginMarketplaceSourceView>, f: Option<String>, r: Option<String>) -> bool {
    if sources.len() == 0 {
        r is None
    } else {
        match f {
            None => r matches Some(t) && t == sources[0].id,
            Some(cur) => match source_position(sources, cur@) {
                Some(i) => if i + 1 < sources.len() { r matches Some(t) && t == sources[i + 1].id } else { r is None },
                None => r is None,
            },
        }
    }
}

/// The label of the marketplace filter: the source's name (its id when the
/// name is empty), the filter's id when the source is unknown, `all`
/// without a filter.
pub open spec fn marketplace_label_spec(o: PluginOverlay) -> Seq<char> {
    match o.catalog_marketplace_filter {
        None => "all"@,
        Some(id) => match source_position(o.sources@, id@) {
            Some(i) => if o.sources@[i].display_name@.len() == 0 { o.sources@[i].id@ } else { o.sources@[i].display_name@ },
            None => id@,
        },
    }
}

/// A match found from position `i` on lies inside the list and has the id.
proof fn lemma_source_position_from(sources: Seq<PluginMarketplaceSourceView>, id: Seq<char>, i: int)
    requires
        0 <= i,
    ensures
        source_position_from(sources, id, i) matches Some(j) ==> i <= j < sources.len() && sources[j].id@ == id,
    decreases sources.len() - i,
{
    if i < sources.len() && sources[i].id@ != id {
        lemma_source_position_from(sources, id, i + 1);
    }
}

/// Position of the first source with the id.
fn find_source(sources: &Vec<PluginMarketplaceSourceView>, id: &str) -> (r: Option<usize>)
    ensures
        r == match source_position(sources@, id@) { Some(k) => Some(k as usize), None => None::<usize> },
        r matches Some(k) ==> k < sources@.len() && source_position(sources@, id@) == Some(k as int),
{
    proof {
        lemma_source_position_from(sources@, id@, 0);
    }
    let mut i: usize = 0;
    while i < sources.len()
        invariant
            i <= sources.len(),
            source_position(sources@, id@) == source_position_from(sources@, id@, i as int),
        decreases sources.len() - i,
    {
        if str_eq(sources[i].id.as_str(), id) {
            return Some(i);
        }
        i = i + 1;
    }
    None
}

/// A search keyword to pass on: nothing when blank, otherwise trimmed.
pub fn non_empty_trimmed(value: &str) -> (r: Option<String>)
    ensures
        is_blank(value@) ==> r is None,
        !is_blank(value@) ==> (r matches Some(t) && t@ == trim_seq(value@)),
{
    trim_option(value)
}

impl PluginOverlay {
    /// A hidden overlay on the installed tab.
    pub fn new() -> (o: PluginOverlay)
        ensures
            !o.visible,
            !o.focused,
            o.mode == PluginOverlayMode::List,
            o.tab == PluginTab::Installed,
            o.plugins@.len() == 0,
            o.catalog@.len() == 0,
            o.sources@.len() == 0,
            o.install_target == PluginInstallTarget::User,
            o.catalog_keyword@.len() == 0,
            o.catalog_marketplace_filter is None,
            o.plugins_state.index is None,
            o.catalog_state.index is None,
            o.sources_state.index is None,
    {
        PluginOverlay {
            focused: false,
            visible: false,
            mode: PluginOverlayMode::List,
            tab: PluginTab::Installed,
            plugins: Vec::new(),
            catalog: Vec::new(),
            sources: Vec::new(),
            install_target: PluginInstallTarget::User,
            catalog_keyword: String::new(),
            catalog_marketplace_filter: None,
            plugins_state: ListSelection::new(),
            catalog_state: ListSelection::new(),
            sources_state: ListSelection::new(),
        }
    }

    /// Whether the overlay is shown.
    pub fn is_visible(&self) -> (b: bool)
        ensures
            b == self.visible,
    {
        self.visible
    }

    /// Shows a snapshot.
    pub fn show(&mut self, snapshot: PluginOverlaySnapshot)
        ensures
            shown(*old(self), *final(self), snapshot),
    {
        self.plugins = snapshot.plugins;
        self.catalog = snapshot.catalog;
        self.sources = snapshot.sources;
        self.install_target = snapshot.install_target;
        self.visible = true;
        self.mode = PluginOverlayMode::List;
        self.reconcile_catalog_marketplace_filter();
        self.ensure_selection();
    }

    /// Hides the overlay and drops its lists.
    pub fn dismiss(&mut self)
        ensures
            dismissed(*old(self), *final(self)),
    {
        self.visible = false;
        self.mode = PluginOverlayMode::List;
        self.plugins = Vec::new();
        self.catalog = Vec::new();
        self.sources = Vec::new();
        self.plugins_state.select(None);
        self.catalog_state.select(None);
        self.sources_state.select(None);
    }

    /// The installed plugins.
    pub fn plugins(&self) -> (r: &[PluginSettingsView])
        ensures
            r@ == self.plugins@,
    {
        self.plugins.as_slice()
    }

    /// Selection of the current tab.
    pub fn selected_index(&self) -> (r: Option<usize>)
        ensures
            r == current_selected_spec(*self),
    {
        self.current_selected()
    }

    /// The catalog filters: the marketplace filter and the trimmed keyword
    /// (nothing when blank).
    pub fn catalog_filters(&self) -> (r: PluginCatalogFilters)
        ensures
            r.marketplace_id == self.catalog_marketplace_filter,
            is_blank(self.catalog_keyword@) ==> r.keyword is None,
            !is_blank(self.catalog_keyword@) ==> (r.keyword matches Some(t) && t@ == trim_seq(self.catalog_keyword@)),
    {
        PluginCatalogFilters {
            marketplace_id: self.catalog_marketplace_filter.clone(),
            keyword: non_empty_trimmed(self.catalog_keyword.as_str()),
        }
    }

    /// Length of the current tab's list.
    pub fn current_len(&self) -> (n: usize)
        ensures
            n == current_len_spec(*self),
    {
        match self.tab {
            PluginTab::Installed => self.plugins.len(),
            PluginTab::Catalog => self.catalog.len(),
            PluginTab::Sources => self.sources.len(),
        }
    }

    /// Selection of the current tab's list.
    pub fn current_selected(&self) -> (r: Option<usize>)
        ensures
            r == current_selected_spec(*self),
    {
        match self.tab {
            PluginTab::Installed => self.plugins_state.selected(),
            PluginTab::Catalog => self.catalog_state.selected(),
            PluginTab::Sources => self.sources_state.selected(),
        }
    }

    /// Sets the selection of the current tab's list.
    pub fn select_current(&mut self, selected: Option<usize>)
        ensures
            *final(self) == select_current_spec(*old(self), selected),
    {
        match self.tab {
            PluginTab::Installed => self.plugins_state.select(selected),
            PluginTab::Catalog => self.catalog_state.select(selected),
            PluginTab::Sources => self.sources_state.select(selected),
        }
    }

    /// Keeps every tab's selection inside its list.
    pub fn ensure_selection(&mut self)
        ensures
            *final(self) == ensure_spec(*old(self)),
    {
        let p = clamp_selection(self.plugins.len(), self.plugins_state.selected());
        self.plugins_state.select(p);
        let c = clamp_selection(self.catalog.len(), self.catalog_state.selected());
        self.catalog_state.select(c);
        let s = clamp_selection(self.sources.len(), self.sources_state.selected());
        self.sources_state.select(s);
    }

    /// The highlighted installed plugin.
    pub fn selected_plugin(&self) -> (r: Option<&PluginSettingsView>)
        ensures
            r == match pick(self.plugins@, self.plugins_state.index) { Some(e) => Some(&e), None => None },
    {
        match self.plugins_state.selected() {
            Some(i) => if i < self.plugins.len() { Some(&self.plugins[i]) } else { None },
            None => None,
        }
    }

    /// The highlighted catalog entry.
    pub fn selected_catalog_entry(&self) -> (r: Option<&PluginCatalogEntry>)
        ensures
            r == match pick(self.catalog@, self.catalog_state.index) { Some(e) => Some(&e), None => None },
    {
        match self.catalog_state.selected() {
            Some(i) => if i < self.catalog.len() { Some(&self.catalog[i]) } else { None },
            None => None,
        }
    }

    /// The highlighted marketplace source.
    pub fn selected_source(&self) -> (r: Option<&PluginMarketplaceSourceView>)
        ensures
            r == match pick(self.sources@, self.sources_state.index) { Some(e) => Some(&e), None => None },
    {
        match self.sources_state.selected() {
            Some(i) => if i < self.sources.len() { Some(&self.sources[i]) } else { None },
            None => None,
        }
    }

    /// Drops the marketplace filter when its source is no longer listed.
    fn reconcile_catalog_marketplace_filter(&mut self)
        ensures
            *final(self) == (PluginOverlay {
                catalog_marketplace_filter: reconciled(old(self).catalog_marketplace_filter, old(self).sources@),
                ..*old(self)
            }),
    {
        let keep = match &self.catalog_marketplace_filter {
            Some(id) => find_source(&self.sources, id.as_str()).is_some(),
            None => true,
        };
        if !keep {
            self.catalog_marketplace_filter = None;
        }
    }

    /// Moves the marketplace filter to the next source, or back to none.
    pub fn cycle_catalog_marketplace_filter(&mut self)
        ensures
            old(self).sources@.len() == 0 ==> *final(self) == (PluginOverlay { catalog_marketplace_filter: None, ..*old(self) }),
            old(self).sources@.len() > 0 ==> *final(self) == ensure_spec(PluginOverlay {
                catalog_marketplace_filter: final(self).catalog_marketplace_filter,
                ..*old(self)
            }),
            next_filter_ok(old(self).sources@, old(self).catalog_marketplace_filter, final(self).catalog_marketplace_filter),
    {
        if self.sources.len() == 0 {
            self.catalog_marketplace_filter = None;
            return;
        }
        let next = match &self.catalog_marketplace_filter {
            None => Some(self.sources[0].id.clone()),
            Some(cur) => match find_source(&self.sources, cur.as_str()) {
                Some(i) => if i + 1 < self.sources.len() { Some(self.sources[i + 1].id.clone()) } else { None },
                None => None,
            },
        };
        self.catalog_marketplace_filter = next;
        self.ensure_selection();
    }

    /// The label of the marketplace filter.
    pub fn catalog_marketplace_label(&self) -> (r: String)
        ensures
            r@ == marketplace_label_spec(*self),
    {
        match &self.catalog_marketplace_filter {
            None => copy_str("all"),
            Some(id) => match find_source(&self.sources, id.as_str()) {
                Some(i) => {
                    let s = &self.sources[i];
                    if s.display_name.as_str().unicode_len() == 0 { s.id.clone() } else { s.display_name.clone() }
                },
                None => id.clone(),
            },
        }
    }

    /// Whether a catalog filter is set: a marketplace or a keyword.
    pub fn catalog_filters_active(&self) -> (b: bool)
        ensures
            b == (self.catalog_marketplace_filter is Some || !is_blank(self.catalog_keyword@)),
    {
        self.catalog_marketplace_filter.is_some() || !crate::text::is_blank_str(self.catalog_keyword.as_str())
    }
}

impl Default for PluginOverlay {
    /// The same as [`PluginOverlay::new`].
    fn default() -> (o: Self)
        ensures
            !o.visible,
            !o.focused,
            o.mode == PluginOverlayMode::List,
            o.tab == PluginTab::Installed,
            o.plugins@.len() == 0,
            o.catalog@.len() == 0,
            o.sources@.len() == 0,
            o.install_target == PluginInstallTarget::User,
            o.catalog_keyword@.len() == 0,
            o.catalog_marketplace_filter is None,
            o.plugins_state.index is None,
            o.catalog_state.index is None,
            o.sources_state.index is None,
    {
        PluginOverlay::new()
    }
}

} // verus!
