//! Properties of the plugin overlay that span its operations.

use vstd::prelude::*;

use crate::commands::Command;
use crate::effects::CrossPanelEffect;
use crate::keys::KeyCode;
use crate::plugin_overlay::keys::{list_key_ok, other_target};
use crate::plugin_overlay::state::{ensure_spec, next_filter_ok, source_position, source_position_from, PluginOverlay};
use crate::plugin_overlay::types::{PluginInstallTarget, PluginMarketplaceSourceView};

verus! {

/// No two sources share an id.
pub open spec fn distinct_ids(sources: Seq<PluginMarketplaceSourceView>) -> bool {
    forall|a: int, b: int| 0 <= a < b < sources.len() ==> #[trigger] sources[a].id@ != #[trigger] sources[b].id@
}

/// With distinct ids, a source is found at its own position.
proof fn lemma_position_of_own_id(sources: Seq<PluginMarketplaceSourceView>, i: int, from: int)
    requires
        distinct_ids(sources),
        0 <= from <= i < sources.len(),
    ensures
        source_position_from(sources, sources[i].id@, from) == Some(i),
    decreases i - from,
{
    if from < i {
        assert(sources[from].id@ != sources[i].id@);
        lemma_position_of_own_id(sources, i, from + 1);
    }
}

/// Cycling the marketplace filter walks the sources in order: from no
/// filter to the first source, from each source to the next, and from the
/// last back to no filter.
pub proof fn law_marketplace_cycle_walks_sources(
    sources: Seq<PluginMarketplaceSourceView>,
    i: int,
    current: String,
    r: Option<String>,
)
    requires
        distinct_ids(sources),
        0 <= i < sources.len(),
        current@ == sources[i].id@,
        next_filter_ok(sources, Some(current), r),
    ensures
        i + 1 < sources.len() ==> (r matches Some(t) && t == sources[i + 1].id),
        i + 1 == sources.len() ==> r is None,
{
    lemma_position_of_own_id(sources, i, 0);
}

/// Switching the install target twice gives it back.
pub proof fn law_install_target_toggle_involutive(t: PluginInstallTarget)
    ensures
        other_target(other_target(t)) == t,
        other_target(t) != t,
{
}

/// Switching tabs keeps every list's own selection: when each selection is
/// in range, Tab changes the tab and nothing else, and BackTab after it
/// gives the overlay back as it was.
pub proof fn law_tab_keeps_selections(
    o: PluginOverlay,
    m: PluginOverlay,
    n: PluginOverlay,
    e1: Seq<CrossPanelEffect>,
    c1: Seq<Command>,
    e2: Seq<CrossPanelEffect>,
    c2: Seq<Command>,
)
    requires
        ensure_spec(o) == o,
        list_key_ok(o, m, KeyCode::Tab, e1, c1),
        list_key_ok(m, n, KeyCode::BackTab, e2, c2),
    ensures
        m == (PluginOverlay { tab: m.tab, ..o }),
        n == o,
        e1.len() == 0 && c1.len() == 0 && e2.len() == 0 && c2.len() == 0,
{
}

/// The filter sits at position `q` of the cycle: on the source at `q`, or
/// on no filter when `q` is the number of sources.
pub open spec fn at_position(sources: Seq<PluginMarketplaceSourceView>, f: Option<String>, q: int) -> bool {
    if q == sources.len() {
        f is None
    } else {
        f matches Some(t) && t@ == sources[q].id@
    }
}

/// One cycling step moves the filter one position along the cycle.
proof fn lemma_cycle_step(
    sources: Seq<PluginMarketplaceSourceView>,
    f: Option<String>,
    r: Option<String>,
    q: int,
)
    requires
        distinct_ids(sources),
        0 <= q <= sources.len(),
        at_position(sources, f, q),
        next_filter_ok(sources, f, r),
    ensures
        at_position(sources, r, if q == sources.len() { 0 } else { q + 1 }),
{
    if q < sources.len() {
        lemma_position_of_own_id(sources, q, 0);
    }
}

/// After `k` steps from position `q0` the filter is `k` positions further
/// along the cycle.
proof fn lemma_cycle_walk(sources: Seq<PluginMarketplaceSourceView>, fs: Seq<Option<String>>, q0: int, k: int)
    requires
        distinct_ids(sources),
        fs.len() == sources.len() + 2,
        forall|j: int| 0 <= j <= sources.len() ==> next_filter_ok(sources, #[trigger] fs[j], fs[j + 1]),
        0 <= q0 <= sources.len(),
        at_position(sources, fs[0], q0),
        0 <= k <= sources.len() + 1,
    ensures
        at_position(
            sources,
            fs[k],
            if q0 + k <= sources.len() { q0 + k } else { q0 + k - (sources.len() + 1) },
        ),
    decreases k,
{
    if k > 0 {
        lemma_cycle_walk(sources, fs, q0, k - 1);
        let n = sources.len() as int;
        let q = if q0 + k - 1 <= n { q0 + k - 1 } else { q0 + k - 1 - (n + 1) };
        assert(next_filter_ok(sources, fs[k - 1], fs[k]));
        lemma_cycle_step(sources, fs[k - 1], fs[k], q);
    }
}

/// Cycling the marketplace filter comes back to where it started: from no
/// filter, or from a listed source, one more call than there are sources
/// gives the starting filter again (sources with distinct ids).
pub proof fn law_marketplace_cycle_returns(sources: Seq<PluginMarketplaceSourceView>, fs: Seq<Option<String>>)
    requires
        distinct_ids(sources),
        fs.len() == sources.len() + 2,
        forall|j: int| 0 <= j <= sources.len() ==> next_filter_ok(sources, #[trigger] fs[j], fs[j + 1]),
        match fs[0] {
            None => true,
            Some(c) => exists|i: int| 0 <= i < sources.len() && c@ == #[trigger] sources[i].id@,
        },
    ensures
        match (fs[0], fs[sources.len() as int + 1]) {
            (None, None) => true,
            (Some(a), Some(b)) => a@ == b@,
            _ => false,
        },
{
    let n = sources.len() as int;
    let q0 = match fs[0] {
        None => n,
        Some(c) => choose|i: int| 0 <= i < sources.len() && c@ == #[trigger] sources[i].id@,
    };
    lemma_cycle_walk(sources, fs, q0, n + 1);
}

} // verus!
