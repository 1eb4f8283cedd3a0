//! State of the model overlay and the queries over it: the highlighted
//! profile, the effort picker and the test results.

use vstd::prelude::*;

use crate::mcp_overlay::state::pick;
use crate::model_overlay::types::{
    empty_draft, profile_field_at, ModelOverlaySnapshot, ModelProfileEntry,
    ModelProfileTestResult, OverlayFocus, OverlayMode, ProfileDraft, ProfileEditorField,
    PROFILE_EDITOR_FIELDS,
};
use crate::selection::ListSelection;
use crate::text::str_eq;
use crate::text_map::TextMap;

verus! {

/// Reasoning efforts offered for reasoning-capable profiles, in order.
pub const REASONING_EFFORTS: [&'static str; 4] = ["low", "middle", "high", "xhigh"];

/// The effort at a position of the picker.
pub open spec fn effort_at(i: int) -> Option<Seq<char>> {
    if i == 0 {
        Some("low"@)
    } else if i == 1 {
        Some("middle"@)
    } else if i == 2 {
        Some("high"@)
    } else if i == 3 {
        Some("xhigh"@)
    } else {
        None
    }
}

/// The position of an effort in the picker.
pub open spec fn effort_index(e: Seq<char>) -> Option<usize> {
    if e == "low"@ {
        Some(0usize)
    } else if e == "middle"@ {
        Some(1usize)
    } else if e == "high"@ {
        Some(2usize)
    } else if e == "xhigh"@ {
        Some(3usize)
    } else {
        None
    }
}

/// The position of the first profile, from position `i` on, with a given
/// alias.
pub open spec fn alias_position_from(profiles: Seq<ModelProfileEntry>, alias: Seq<char>, i: int) -> Option<int>
    decreases profiles.len() - i,
{
    if i < 0 || i >= profiles.len() {
        None
    } else if profiles[i].alias@ == alias {
        Some(i)
    } else {
        alias_position_from(profiles, alias, i + 1)
    }
}

/// The position of the first profile with a given alias.
pub open spec fn alias_position(profiles: Seq<ModelProfileEntry>, alias: Seq<char>) -> Option<int> {
    alias_position_from(profiles, alias, 0)
}

/// The model overlay.
pub struct ModelOverlay {
    pub focused: bool,
    pub visible: bool,
    pub profiles: Vec<ModelProfileEntry>,
    pub current_alias: Option<String>,
    pub current_effort: Option<String>,
    pub list_state: ListSelection,
    pub effort_state: ListSelection,
    pub overlay_focus: OverlayFocus,
    pub mode: OverlayMode,
    pub draft: ProfileDraft,
    pub editor_field_index: usize,
    pub test_results: TextMap<ModelProfileTestResult>,
}

impl ModelOverlay {
    /// The overlay's own state: test results keep distinct aliases and the
    /// editor cursor points at a field.
    pub open spec fn wf(&self) -> bool {
        &&& self.test_results.wf()
        &&& self.editor_field_index < 12
    }
}

/// The highlighted profile.
pub open spec fn sel_profile(o: ModelOverlay) -> Option<ModelProfileEntry> {
    pick(o.profiles@, o.list_state.index)
}

/// The effort picker is shown: the highlighted profile can reason.
pub open spec fn shows_effort_spec(o: ModelOverlay) -> bool {
    match sel_profile(o) {
        Some(p) => p.supports_reasoning,
        None => false,
    }
}

/// The highlighted effort, when the picker is shown.
pub open spec fn selected_effort_spec(o: ModelOverlay) -> Option<Seq<char>> {
    if !shows_effort_spec(o) {
        None
    } else {
        match o.effort_state.index {
            Some(i) => effort_at(i as int),
            None => None,
        }
    }
}

/// `n` is `o` showing `s`: the current profile highlighted (the first one
/// when it is absent), the current effort highlighted (the first one when
/// it is unknown), the profile list focused.
pub open spec fn shown(o: ModelOverlay, n: ModelOverlay, s: ModelOverlaySnapshot) -> bool {
    let sel = if s.profiles@.len() == 0 {
        None
    } else {
        match s.current_alias {
            Some(a) => match alias_position(s.profiles@, a@) {
                Some(i) => Some(i as usize),
                None => Some(0usize),
            },
            None => Some(0usize),
        }
    };
    let effort = match s.current_effort {
        Some(e) => match effort_index(e@) {
            Some(i) => i,
            None => 0usize,
        },
        None => 0usize,
    };
    n == ModelOverlay {
        profiles: s.profiles,
        current_alias: s.current_alias,
        current_effort: s.current_effort,
        list_state: ListSelection { index: sel },
        effort_state: ListSelection { index: Some(effort) },
        overlay_focus: OverlayFocus::ProfileList,
        mode: OverlayMode::List,
        visible: true,
        ..o
    }
}

/// `n` is `o` hidden with its profiles, selections, draft and test results
/// dropped.
pub open spec fn dismissed(o: ModelOverlay, n: ModelOverlay) -> bool {
    &&& n == ModelOverlay {
        visible: false,
        profiles: n.profiles,
        current_alias: None,
        current_effort: None,
        list_state: ListSelection { index: None },
        effort_state: ListSelection { index: None },
        overlay_focus: OverlayFocus::ProfileList,
        mode: OverlayMode::List,
        draft: n.draft,
        editor_field_index: 0,
        test_results: n.test_results,
        ..o
    }
    &&& n.profiles@.len() == 0
    &&& n.draft@ == empty_draft()
    &&& n.test_results.wf()
    &&& n.test_results.map().dom().is_empty()
}

/// Position of the first profile with the alias.
fn find_alias(profiles: &Vec<ModelProfileEntry>, alias: &str) -> (r: Option<usize>)
    ensures
        r == match alias_position(profiles@, alias@) { Some(k) => Some(k as usize), None => None::<usize> },
        r matches Some(k) ==> k < profiles@.len(),
{
    let mut i: usize = 0;
    while i < profiles.len()
        invariant
            i <= profiles.len(),
            alias_position(profiles@, alias@) == alias_position_from(profiles@, alias@, i as int),
        decreases profiles.len() - i,
    {
        if str_eq(profiles[i].alias.as_str(), alias) {
            return Some(i);
        }
        i = i + 1;
    }
    None
}

/// The picker position of an effort.
fn find_effort(e: &str) -> (r: Option<usize>)
    ensures
        r == effort_index(e@),
{
    if str_eq(e, "low") {
        Some(0)
    } else if str_eq(e, "middle") {
        Some(1)
    } else if str_eq(e, "high") {
        Some(2)
    } else if str_eq(e, "xhigh") {
        Some(3)
    } else {
        None
    }
}

impl ModelOverlay {
    /// A hidden, empty overlay.
    pub fn new() -> (o: ModelOverlay)
        ensures
            o.wf(),
            !o.visible,
            !o.focused,
            o.profiles@.len() == 0,
            o.current_alias is None,
            o.current_effort is None,
            o.list_state.index is None,
            o.effort_state.index is None,
            o.overlay_focus == OverlayFocus::ProfileList,
            o.mode == OverlayMode::List,
            o.draft@ == empty_draft(),
            o.editor_field_index == 0,
            o.test_results.map().dom().is_empty(),
    {
        ModelOverlay {
            focused: false,
            visible: false,
            profiles: Vec::new(),
            current_alias: None,
            current_effort: None,
            list_state: ListSelection::new(),
            effort_state: ListSelection::new(),
            overlay_focus: OverlayFocus::ProfileList,
            mode: OverlayMode::List,
            draft: ProfileDraft::new(),
            editor_field_index: 0,
            test_results: TextMap::new(),
        }
    }

    /// Whether the overlay is shown.
    pub fn is_visible(&self) -> (b: bool)
        ensures
            b == self.visible,
    {
        self.visible
    }

    /// Shows a snapshot.
    pub fn show(&mut self, snapshot: ModelOverlaySnapshot)
        ensures
            shown(*old(self), *final(self), snapshot),
    {
        let select = if snapshot.profiles.len() == 0 {
            None
        } else {
            match &snapshot.current_alias {
                Some(a) => match find_alias(&snapshot.profiles, a.as_str()) {
                    Some(i) => Some(i),
                    None => Some(0),
                },
                None => Some(0),
            }
        };
        let effort = match &snapshot.current_effort {
            Some(e) => match find_effort(e.as_str()) {
                Some(i) => i,
                None => 0,
            },
            None => 0,
        };
        self.list_state.select(select);
        self.current_alias = snapshot.current_alias;
        self.current_effort = snapshot.current_effort;
        self.profiles = snapshot.profiles;
        self.effort_state.select(Some(effort));
        self.overlay_focus = OverlayFocus::ProfileList;
        self.mode = OverlayMode::List;
        self.visible = true;
    }

    /// Hides the overlay and drops what it loaded.
    pub fn dismiss(&mut self)
        ensures
            dismissed(*old(self), *final(self)),
    {
        self.visible = false;
        self.profiles = Vec::new();
        self.list_state.select(None);
        self.effort_state.select(None);
        self.current_alias = None;
        self.current_effort = None;
        self.overlay_focus = OverlayFocus::ProfileList;
        self.mode = OverlayMode::List;
        self.draft = ProfileDraft::new();
        self.editor_field_index = 0;
        self.test_results = TextMap::new();
    }

    /// The profiles.
    pub fn profiles(&self) -> (r: &[ModelProfileEntry])
        ensures
            r@ == self.profiles@,
    {
        self.profiles.as_slice()
    }

    /// Position of the highlighted profile.
    pub fn selected_index(&self) -> (r: Option<usize>)
        ensures
            r == self.list_state.index,
    {
        self.list_state.selected()
    }

    /// The highlighted profile.
    pub fn selected_profile(&self) -> (r: Option<&ModelProfileEntry>)
        ensures
            r == match sel_profile(*self) { Some(p) => Some(&p), None => None },
    {
        match self.list_state.selected() {
            Some(i) => if i < self.profiles.len() { Some(&self.profiles[i]) } else { None },
            None => None,
        }
    }

    /// The editor's current field.
    pub fn current_editor_field(&self) -> (f: ProfileEditorField)
        requires
            self.wf(),
        ensures
            f == profile_field_at(self.editor_field_index),
    {
        PROFILE_EDITOR_FIELDS[self.editor_field_index]
    }

    /// Whether the effort picker is shown.
    pub fn shows_effort_picker(&self) -> (b: bool)
        ensures
            b == shows_effort_spec(*self),
    {
        match self.selected_profile() {
            Some(p) => p.supports_reasoning,
            None => false,
        }
    }

    /// The highlighted effort, when the picker is shown.
    pub fn selected_effort(&self) -> (r: Option<&'static str>)
        ensures
            r is None <==> selected_effort_spec(*self) is None,
            r matches Some(e) ==> selected_effort_spec(*self) == Some(e@),
    {
        if !self.shows_effort_picker() {
            return None;
        }
        match self.effort_state.selected() {
            Some(i) => {
                if i == 0 {
                    Some("low")
                } else if i == 1 {
                    Some("middle")
                } else if i == 2 {
                    Some("high")
                } else if i == 3 {
                    Some("xhigh")
                } else {
                    None
                }
            },
            None => None,
        }
    }

    /// The efforts offered: all of them while the picker is shown, none
    /// otherwise.
    pub fn effort_options(&self) -> (r: &'static [&'static str])
        ensures
            shows_effort_spec(*self) ==> r@.len() == 4 && (forall|i: int| 0 <= i < 4 ==> Some(#[trigger] r@[i]@) == effort_at(i)),
            !shows_effort_spec(*self) ==> r@.len() == 0,
    {
        if self.shows_effort_picker() {
            let r: &'static [&'static str] = &REASONING_EFFORTS;
            proof {
                reveal_strlit("low");
                reveal_strlit("middle");
                reveal_strlit("high");
                reveal_strlit("xhigh");
            }
            assert(r@ =~= seq!["low", "middle", "high", "xhigh"]);
            r
        } else {
            &[]
        }
    }

    /// Stores the result of testing a profile under its alias.
    pub fn set_test_result(&mut self, result: ModelProfileTestResult)
        requires
            old(self).wf(),
        ensures
            final(self).wf(),
            *final(self) == (ModelOverlay { test_results: final(self).test_results, ..*old(self) }),
            final(self).test_results.map() == old(self).test_results.map().insert(result.alias@, result),
    {
        let key = result.alias.clone();
        self.test_results.insert(key, result);
    }
}

impl Default for ModelOverlay {
    /// The same as [`ModelOverlay::new`].
    fn default() -> (o: Self)
        ensures
            o.wf(),
            !o.visible,
            !o.focused,
            o.profiles@.len() == 0,
            o.current_alias is None,
            o.current_effort is None,
            o.list_state.index is None,
            o.effort_state.index is None,
            o.overlay_focus == OverlayFocus::ProfileList,
            o.mode == OverlayMode::List,
            o.draft@ == empty_draft(),
            o.editor_field_index == 0,
            o.test_results.map().dom().is_empty(),
    {
        ModelOverlay::new()
    }
}

} // verus!
