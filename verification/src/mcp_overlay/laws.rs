//! Properties of the MCP overlay that span its operations.

use vstd::prelude::*;

use crate::keys::{KeyCode, KeyInput};
use crate::effects::CrossPanelEffect;
use crate::commands::Command;
use crate::mcp_overlay::events::list_key_ok;
use crate::mcp_overlay::keys::filter_key_ok;
use crate::mcp_overlay::state::{
    current_len_spec, dismissed, ensure_spec, visible_indices_spec, visible_prefix, McpOverlay,
};
use crate::mcp_overlay::types::{tab_index, McpOverlayTab};
use crate::mcp_overlay::state::{entry_visible_spec, haystack_spec};
use crate::mcp_overlay::types::ServerEntry;
use crate::text::{lowercase, pop_seq, trim_seq};

verus! {

/// `sel` is a valid selection of a list of `len` rows: nothing for an empty
/// list, a row of the list otherwise.
pub open spec fn in_range(sel: Option<usize>, len: nat) -> bool {
    match sel {
        None => len == 0,
        Some(i) => i < len,
    }
}

/// After the selections are kept in range, each list of the overlay has a
/// valid selection: the runtime, settings, installed, catalog and sources
/// lists always, and the tools, resources and prompts lists whenever the
/// highlighted runtime server was already inside its list (those lists
/// belong to the highlighted server, and are measured before it moves).
pub proof fn law_ensure_selection_in_range(o: McpOverlay)
    ensures
        ({
            let n = ensure_spec(o);
            &&& in_range(n.runtime_state.index, n.runtime_servers@.len())
            &&& in_range(n.settings_state.index, n.settings@.len())
            &&& in_range(n.installed_state.index, n.installed@.len())
            &&& in_range(n.catalog_state.index, visible_indices_spec(n).len())
            &&& in_range(n.sources_state.index, n.sources@.len())
            &&& (o.runtime_state.index == n.runtime_state.index ==> {
                &&& in_range(n.tools_state.index, crate::mcp_overlay::state::tools_spec(n).len())
                &&& in_range(n.resources_state.index, crate::mcp_overlay::state::resources_spec(n).len())
                &&& in_range(n.prompts_state.index, crate::mcp_overlay::state::prompts_spec(n).len())
            })
        }),
{
    let n = ensure_spec(o);
    lemma_visible_same(o, n, o.catalog@.len() as int);
}

/// The visible catalog depends only on the catalog, the sources, the
/// keyword and the trust filter.
proof fn lemma_visible_same(o: McpOverlay, n: McpOverlay, k: int)
    requires
        n.catalog == o.catalog,
        n.sources == o.sources,
        n.catalog_keyword == o.catalog_keyword,
        n.catalog_trust_filter == o.catalog_trust_filter,
    ensures
        visible_prefix(n, k) == visible_prefix(o, k),
    decreases k,
{
    if k > 0 {
        lemma_visible_same(o, n, k - 1);
    }
}

/// A dismissed overlay is hidden and every tab's list is empty.
pub proof fn law_dismissed_lists_empty(o: McpOverlay, n: McpOverlay)
    requires
        dismissed(o, n),
    ensures
        !n.visible,
        current_len_spec(n) == 0,
        forall|t: McpOverlayTab| #[trigger] current_len_spec(McpOverlay { tab: t, ..n }) == 0,
{
    assert forall|t: McpOverlayTab| #[trigger] current_len_spec(McpOverlay { tab: t, ..n }) == 0 by {
        let m = McpOverlay { tab: t, ..n };
        assert(visible_prefix(m, 0) =~= Seq::<usize>::empty());
    }
    assert(visible_prefix(n, 0) =~= Seq::<usize>::empty());
}

/// Moving one tab right and then one tab left comes back to the same tab,
/// and so does the other order.
pub proof fn law_tab_steps_invert(t: McpOverlayTab, r: McpOverlayTab, l: McpOverlayTab)
    requires
        tab_index(r) == (tab_index(t) + 1) % 8,
        tab_index(l) == (tab_index(r) + 7) % 8,
    ensures
        l == t,
{
    crate::mcp_overlay::types::law_tab_index_injective(l, t);
}

/// In the catalog search, typing a character and then Backspace gives the
/// keyword back, and with it the same visible catalog.
pub proof fn law_filter_type_then_backspace(o: McpOverlay, m: McpOverlay, n: McpOverlay, ch: char)
    requires
        filter_key_ok(o, m, KeyInput { code: KeyCode::Char(ch), control: false, alt: false }),
        filter_key_ok(m, n, KeyInput { code: KeyCode::Backspace, control: false, alt: false }),
    ensures
        n.catalog_keyword@ == o.catalog_keyword@,
        visible_indices_spec(n) == visible_indices_spec(o),
{
    assert(o.catalog_keyword@.push(ch).drop_last() =~= o.catalog_keyword@);
    assert(n.catalog_keyword@ == pop_seq(o.catalog_keyword@.push(ch)));
    lemma_visible_same_text(o, n, o.catalog@.len() as int);
}

/// Two overlays whose catalog inputs agree, the keyword as text, show the
/// same visible catalog.
proof fn lemma_visible_same_text(o: McpOverlay, n: McpOverlay, k: int)
    requires
        n.catalog == o.catalog,
        n.sources == o.sources,
        n.catalog_keyword@ == o.catalog_keyword@,
        n.catalog_trust_filter == o.catalog_trust_filter,
    ensures
        visible_prefix(n, k) == visible_prefix(o, k),
    decreases k,
{
    if k > 0 {
        lemma_visible_same_text(o, n, k - 1);
    }
}

/// Changing only the tab changes nothing that keeps the selections in
/// range: the lists, the visible catalog and each list's selection are the
/// same on every tab.
proof fn lemma_ensure_ignores_tab(o: McpOverlay, t: McpOverlayTab)
    ensures
        ensure_spec(McpOverlay { tab: t, ..o }) == (McpOverlay { tab: t, ..ensure_spec(o) }),
{
    let m = McpOverlay { tab: t, ..o };
    lemma_visible_same(o, m, o.catalog@.len() as int);
    assert(visible_indices_spec(m) == visible_indices_spec(o));
}

/// Switching tabs keeps every list's own selection: when each selection is
/// in range, Tab changes the tab and nothing else, and BackTab after it
/// gives the overlay back as it was.
pub proof fn law_tab_keeps_selections(
    o: McpOverlay,
    m: McpOverlay,
    n: McpOverlay,
    e1: Seq<CrossPanelEffect>,
    c1: Seq<Command>,
    e2: Seq<CrossPanelEffect>,
    c2: Seq<Command>,
)
    requires
        ensure_spec(o) == o,
        list_key_ok(o, m, KeyInput { code: KeyCode::Tab, control: false, alt: false }, e1, c1),
        list_key_ok(m, n, KeyInput { code: KeyCode::BackTab, control: false, alt: false }, e2, c2),
    ensures
        m == (McpOverlay { tab: m.tab, ..o }),
        n == o,
        e1.len() == 0 && c1.len() == 0 && e2.len() == 0 && c2.len() == 0,
{
    lemma_ensure_ignores_tab(o, m.tab);
    lemma_ensure_ignores_tab(m, n.tab);
    crate::mcp_overlay::types::law_tab_index_injective(n.tab, o.tab);
    assert(ensure_spec(m) == m) by {
        lemma_ensure_ignores_tab(o, m.tab);
    }
}

/// The catalog search ignores case: two keywords that lowercase alike (and
/// are blank alike) let the same entries through, so the catalog shows the
/// same entries, in the same order, under either; in particular a keyword
/// and its lowercase show the same catalog.
pub proof fn law_catalog_search_ignores_case(o1: McpOverlay, o2: McpOverlay, e: ServerEntry)
    requires
        o2 == (McpOverlay { catalog_keyword: o2.catalog_keyword, ..o1 }),
        lowercase(trim_seq(o1.catalog_keyword@)) == lowercase(trim_seq(o2.catalog_keyword@)),
        trim_seq(o1.catalog_keyword@).len() == 0 <==> trim_seq(o2.catalog_keyword@).len() == 0,
    ensures
        entry_visible_spec(o1, e) == entry_visible_spec(o2, e),
        visible_indices_spec(o1) == visible_indices_spec(o2),
{
    lemma_visible_same_case(o1, o2, o1.catalog@.len() as int);
}

/// The catalog search ignores the case of the entries' own text too: two
/// entries from the same source with the same trust, whose searched text
/// lowercases alike, are shown or hidden together under every keyword.
pub proof fn law_catalog_search_ignores_entry_case(o: McpOverlay, e1: ServerEntry, e2: ServerEntry)
    requires
        e1.source@ == e2.source@,
        e1.trust@ == e2.trust@,
        lowercase(haystack_spec(e1)) == lowercase(haystack_spec(e2)),
    ensures
        entry_visible_spec(o, e1) == entry_visible_spec(o, e2),
{
}

/// The visible prefixes agree under keywords that lowercase alike.
proof fn lemma_visible_same_case(o1: McpOverlay, o2: McpOverlay, k: int)
    requires
        o2 == (McpOverlay { catalog_keyword: o2.catalog_keyword, ..o1 }),
        lowercase(trim_seq(o1.catalog_keyword@)) == lowercase(trim_seq(o2.catalog_keyword@)),
        trim_seq(o1.catalog_keyword@).len() == 0 <==> trim_seq(o2.catalog_keyword@).len() == 0,
    ensures
        visible_prefix(o1, k) == visible_prefix(o2, k),
    decreases k,
{
    if k > 0 {
        lemma_visible_same_case(o1, o2, k - 1);
        assert(entry_visible_spec(o1, o1.catalog@[k - 1]) == entry_visible_spec(o2, o2.catalog@[k - 1]));
    }
}

} // verus!
