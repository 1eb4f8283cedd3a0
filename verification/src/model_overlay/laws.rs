//! Properties of the model overlay that span its operations.

use vstd::prelude::*;

use crate::model_overlay::keys::{move_down_spec, move_up_spec};
use crate::model_overlay::state::{
    alias_position, alias_position_from, effort_at, effort_index, sel_profile, shown,
    ModelOverlay,
};
use crate::model_overlay::types::{ModelOverlaySnapshot, ModelProfileEntry, OverlayFocus, OverlayMode};

verus! {

/// The first match from position `i` on has the alias and lies inside
/// the list; with a match at `k >= i` one is found.
proof fn lemma_alias_position_from(profiles: Seq<ModelProfileEntry>, alias: Seq<char>, i: int, k: int)
    requires
        0 <= i,
    ensures
        alias_position_from(profiles, alias, i) matches Some(j) ==> i <= j < profiles.len() && profiles[j].alias@ == alias,
        i <= k < profiles.len() && profiles[k].alias@ == alias ==> alias_position_from(profiles, alias, i) is Some,
    decreases profiles.len() - i,
{
    if i < profiles.len() && profiles[i].alias@ != alias {
        lemma_alias_position_from(profiles, alias, i + 1, k);
    }
}

/// Opening the overlay highlights the current profile when the snapshot
/// holds a profile with the current alias.
pub proof fn law_show_highlights_current(o: ModelOverlay, n: ModelOverlay, s: ModelOverlaySnapshot, k: int)
    requires
        shown(o, n, s),
        s.current_alias is Some,
        0 <= k < s.profiles@.len(),
        s.profiles@[k].alias@ == s.current_alias.unwrap()@,
    ensures
        sel_profile(n) matches Some(p) && p.alias@ == s.current_alias.unwrap()@,
{
    lemma_alias_position_from(s.profiles@, s.current_alias.unwrap()@, 0, k);
    let j = alias_position(s.profiles@, s.current_alias.unwrap()@).unwrap();
    assert(j < s.profiles.len());
    assert((j as usize) as int == j);
}

/// Opening the overlay highlights an effort of the picker: the current
/// effort when it is one of the offered efforts.
pub proof fn law_show_highlights_effort(o: ModelOverlay, n: ModelOverlay, s: ModelOverlaySnapshot)
    requires
        shown(o, n, s),
    ensures
        n.effort_state.index matches Some(i) && effort_at(i as int) is Some,
        s.current_effort is Some && effort_index(s.current_effort.unwrap()@) is Some ==> effort_at(n.effort_state.index.unwrap() as int) == Some(s.current_effort.unwrap()@),
{
}

/// In the profile list, a step down or up keeps the highlighted profile
/// inside a non-empty list.
pub proof fn law_profile_steps_stay_in_range(o: ModelOverlay)
    requires
        o.mode == OverlayMode::List,
        o.overlay_focus == OverlayFocus::ProfileList,
        o.profiles@.len() > 0,
        o.list_state.index matches Some(j) ==> j < o.profiles@.len(),
    ensures
        move_down_spec(o).list_state.index matches Some(i) && i < o.profiles@.len(),
        move_up_spec(o).list_state.index matches Some(i) && i < o.profiles@.len(),
{
    crate::selection::law_steps_stay_in_range(o.profiles.len() as nat, o.list_state.index);
}

} // verus!
