//! Keys and effects of the model overlay: navigation, the effort picker,
//! switching model, the profile commands and the profile editor.

use vstd::prelude::*;

use crate::commands::Command;
use crate::context::EventContext;
use crate::effects::CrossPanelEffect;
use crate::ids::{SessionId, WorkspaceId};
use crate::keys::{KeyCode, KeyInput};
use crate::mcp_overlay::events::opt_seq;
use crate::mcp_overlay::forms::{ring_next, ring_prev};
use crate::mcp_overlay::keys::is_either;
use crate::model_overlay::state::{
    dismissed, sel_profile, selected_effort_spec, shown, shows_effort_spec, ModelOverlay,
};
use crate::model_overlay::types::{
    draft_of_entry, draft_of_input, empty_draft, profile_backspace_spec, profile_clear_spec,
    profile_field_at, profile_input_ok, profile_push_spec, profile_ready, OverlayFocus,
    OverlayMode, ProfileDraft, ProfileDraftView, ProfileSettingsInput,
};
use crate::selection::{down_spec, step_down, step_up, up_spec, ListSelection};
use crate::text::{copy_str, is_blank, trim, trim_seq};

verus! {

/// The overlay after one step down: the next editor field, or the next row
/// of the focused list (stopping at the last).
pub open spec fn move_down_spec(o: ModelOverlay) -> ModelOverlay {
    if o.mode == OverlayMode::Editor {
        ModelOverlay { editor_field_index: ring_next(o.editor_field_index, 12), ..o }
    } else {
        match o.overlay_focus {
            OverlayFocus::ProfileList => if o.profiles@.len() == 0 {
                o
            } else {
                ModelOverlay { list_state: ListSelection { index: down_spec(o.profiles@.len(), o.list_state.index) }, ..o }
            },
            OverlayFocus::EffortList => ModelOverlay {
                effort_state: ListSelection { index: down_spec(4, o.effort_state.index) },
                ..o
            },
        }
    }
}

/// The overlay after one step up.
pub open spec fn move_up_spec(o: ModelOverlay) -> ModelOverlay {
    if o.mode == OverlayMode::Editor {
        ModelOverlay { editor_field_index: ring_prev(o.editor_field_index, 12), ..o }
    } else {
        match o.overlay_focus {
            OverlayFocus::ProfileList => if o.profiles@.len() == 0 {
                o
            } else {
                ModelOverlay { list_state: ListSelection { index: up_spec(o.profiles@.len(), o.list_state.index) }, ..o }
            },
            OverlayFocus::EffortList => ModelOverlay {
                effort_state: ListSelection { index: up_spec(4, o.effort_state.index) },
                ..o
            },
        }
    }
}

/// Focus moves between the profile list and the effort picker, while the
/// picker is shown.
pub open spec fn cycle_spec(o: ModelOverlay) -> ModelOverlay {
    if !shows_effort_spec(o) {
        o
    } else {
        ModelOverlay {
            overlay_focus: match o.overlay_focus {
                OverlayFocus::ProfileList => OverlayFocus::EffortList,
                OverlayFocus::EffortList => OverlayFocus::ProfileList,
            },
            ..o
        }
    }
}

/// Enter can switch model: an enabled profile is highlighted and a session
/// is open.
pub open spec fn can_commit(o: ModelOverlay, session: Option<SessionId>) -> bool {
    &&& sel_profile(o) matches Some(e) && e.enabled
    &&& session is Some
}

/// `c` switches the session to the highlighted profile, with the
/// highlighted effort when the profile can reason.
pub open spec fn commit_ok(o: ModelOverlay, workspace: WorkspaceId, session: Option<SessionId>, c: Command) -> bool {
    &&& can_commit(o, session)
    &&& c matches Command::SwitchModel { workspace_id, session_id, alias, reasoning_effort }
        && workspace_id == workspace && Some(session_id) == session && alias == sel_profile(o).unwrap().alias
        && match reasoning_effort {
            None => !sel_profile(o).unwrap().supports_reasoning || selected_effort_spec(o) is None,
            Some(t) => sel_profile(o).unwrap().supports_reasoning && selected_effort_spec(o) == Some(t@),
        }
}

/// A key that asks for a profile command.
pub open spec fn is_settings_key(code: KeyCode) -> bool {
    is_either(code, 'e', 'E') || is_either(code, 'x', 'X') || code == KeyCode::Char('J')
        || code == KeyCode::Char('K') || is_either(code, 't', 'T') || is_either(code, 'o', 'O')
        || code == KeyCode::Delete
}

/// The profile command a key asks for: enable/disable, delete (writable
/// profiles only), move down or up in the order, test, or open the
/// configuration.
pub open spec fn settings_command_spec(o: ModelOverlay, code: KeyCode) -> Option<Command> {
    if is_either(code, 'o', 'O') {
        Some(Command::OpenProfilesConfig)
    } else {
        match sel_profile(o) {
            None => None,
            Some(e) => if is_either(code, 'e', 'E') {
                Some(Command::SetProfileEnabled { alias: e.alias, enabled: !e.enabled })
            } else if is_either(code, 'x', 'X') || code == KeyCode::Delete {
                if e.writable { Some(Command::DeleteProfileSettings { alias: e.alias }) } else { None }
            } else if code == KeyCode::Char('J') {
                Some(Command::MoveProfileInOrder { alias: e.alias, direction: 1i32 })
            } else if code == KeyCode::Char('K') {
                Some(Command::MoveProfileInOrder { alias: e.alias, direction: -1i32 })
            } else if is_either(code, 't', 'T') {
                Some(Command::TestModelProfile { alias: e.alias })
            } else {
                None
            },
        }
    }
}

/// Testing the draft's URL: nothing without a base URL; otherwise the
/// trimmed URL, under the trimmed alias or, when that is blank, the URL.
pub open spec fn draft_test_ok(d: ProfileDraftView, r: Option<Command>) -> bool {
    if is_blank(d.base_url) {
        r is None
    } else {
        r matches Some(Command::TestModelProfileUrl { alias, base_url }) && base_url@ == trim_seq(d.base_url)
            && alias@ == if is_blank(d.alias) { trim_seq(d.base_url) } else { trim_seq(d.alias) }
    }
}

/// What a key does in the profile list.
pub open spec fn list_key_ok(
    o: ModelOverlay,
    n: ModelOverlay,
    workspace: WorkspaceId,
    session: Option<SessionId>,
    code: KeyCode,
    effects: Seq<CrossPanelEffect>,
    cmds: Seq<Command>,
) -> bool {
    let quiet = effects.len() == 0 && cmds.len() == 0;
    if code == KeyCode::Char('j') || code == KeyCode::Down {
        quiet && n == move_down_spec(o)
    } else if code == KeyCode::Char('k') || code == KeyCode::Up {
        quiet && n == move_up_spec(o)
    } else if code == KeyCode::Tab || code == KeyCode::Char('l') || code == KeyCode::Char('h') {
        quiet && n == cycle_spec(o)
    } else if is_either(code, 'n', 'N') {
        &&& quiet
        &&& n == ModelOverlay { mode: OverlayMode::Editor, draft: n.draft, editor_field_index: 0, visible: true, ..o }
        &&& n.draft@ == empty_draft()
    } else if is_either(code, 'u', 'U') {
        quiet && match sel_profile(o) {
            None => n == o,
            Some(e) => n == ModelOverlay { mode: OverlayMode::Editor, draft: n.draft, editor_field_index: 1, ..o }
                && n.draft@ == draft_of_entry(e),
        }
    } else if is_settings_key(code) {
        effects.len() == 0 && n == o && cmds == opt_seq(settings_command_spec(o, code))
    } else if code == KeyCode::Esc {
        cmds.len() == 0 && effects == seq![CrossPanelEffect::DismissModelOverlay] && dismissed(o, n)
    } else if code == KeyCode::Enter {
        if can_commit(o, session) {
            &&& cmds.len() == 1
            &&& commit_ok(o, workspace, session, cmds[0])
            &&& effects == seq![CrossPanelEffect::DismissModelOverlay]
            &&& dismissed(o, n)
        } else {
            quiet && n == o
        }
    } else {
        quiet && n == o
    }
}

/// What a key does in the profile editor.
pub open spec fn editor_key_ok(o: ModelOverlay, n: ModelOverlay, key: KeyInput, cmds: Seq<Command>) -> bool {
    let f = profile_field_at(o.editor_field_index);
    let with_draft = n == ModelOverlay { draft: n.draft, ..o };
    match key.code {
        KeyCode::Down | KeyCode::Tab => cmds.len() == 0 && n == move_down_spec(o),
        KeyCode::Up | KeyCode::BackTab => cmds.len() == 0 && n == move_up_spec(o),
        KeyCode::Esc => cmds.len() == 0 && n == ModelOverlay { mode: OverlayMode::List, ..o },
        KeyCode::Backspace => cmds.len() == 0 && with_draft && n.draft@ == profile_backspace_spec(o.draft@, f),
        KeyCode::Delete => cmds.len() == 0 && with_draft && n.draft@ == profile_clear_spec(o.draft@, f),
        KeyCode::Enter => if profile_ready(o.draft@) {
            &&& n == ModelOverlay { mode: OverlayMode::List, ..o }
            &&& cmds.len() == 1
            &&& cmds[0] matches Command::SaveProfileSettings { input } && profile_input_ok(o.draft@, input)
        } else {
            n == o && cmds.len() == 0
        },
        KeyCode::Char(ch) => if key.control {
            n == o && if ch == 't' || ch == 'T' {
                cmds.len() <= 1 && draft_test_ok(o.draft@, if cmds.len() == 0 { None } else { Some(cmds[0]) })
            } else {
                cmds.len() == 0
            }
        } else {
            cmds.len() == 0 && with_draft && n.draft@ == profile_push_spec(o.draft@, f, ch)
        },
        _ => n == o && cmds.len() == 0,
    }
}

/// What an effect does to the overlay.
pub open spec fn effect_ok(o: ModelOverlay, n: ModelOverlay, effect: CrossPanelEffect) -> bool {
    match effect {
        CrossPanelEffect::ShowModelOverlay(s) => shown(o, n, s),
        CrossPanelEffect::ModelProfileTested(r) => n == ModelOverlay { test_results: n.test_results, ..o }
            && n.test_results.wf() && n.test_results.map() == o.test_results.map().insert(r.alias@, r),
        CrossPanelEffect::DismissModelOverlay => dismissed(o, n),
        _ => n == o,
    }
}

impl ModelOverlay {
    /// Opens the editor on an empty profile.
    pub fn start_create(&mut self)
        ensures
            *final(self) == (ModelOverlay {
                mode: OverlayMode::Editor,
                draft: final(self).draft,
                editor_field_index: 0,
                visible: true,
                ..*old(self)
            }),
            final(self).draft@ == empty_draft(),
    {
        self.mode = OverlayMode::Editor;
        self.draft = ProfileDraft::new();
        self.editor_field_index = 0;
        self.visible = true;
    }

    /// Opens the editor on the highlighted profile, on its second field
    /// (the alias is locked).
    pub fn start_edit_selected(&mut self)
        ensures
            sel_profile(*old(self)) is None ==> *final(self) == *old(self),
            sel_profile(*old(self)) matches Some(e) ==> *final(self) == (ModelOverlay {
                mode: OverlayMode::Editor,
                draft: final(self).draft,
                editor_field_index: 1,
                ..*old(self)
            }) && final(self).draft@ == draft_of_entry(e),
    {
        let draft = match self.selected_profile() {
            Some(e) => ProfileDraft::from_entry(e),
            None => return,
        };
        self.mode = OverlayMode::Editor;
        self.draft = draft;
        self.editor_field_index = 1;
    }

    /// One step down.
    pub fn move_down(&mut self)
        ensures
            *final(self) == move_down_spec(*old(self)),
    {
        if self.mode == OverlayMode::Editor {
            self.editor_field_index = (self.editor_field_index % 12 + 1) % 12;
            proof {
                let a = old(self).editor_field_index as int;
                vstd::arithmetic::div_mod::lemma_add_mod_noop(a, 1, 12);
            }
            return;
        }
        match self.overlay_focus {
            OverlayFocus::ProfileList => {
                if self.profiles.len() == 0 {
                    return;
                }
                let next = step_down(self.profiles.len(), self.list_state.selected());
                self.list_state.select(next);
            },
            OverlayFocus::EffortList => {
                let next = step_down(4, self.effort_state.selected());
                self.effort_state.select(next);
            },
        }
    }

    /// One step up.
    pub fn move_up(&mut self)
        ensures
            *final(self) == move_up_spec(*old(self)),
    {
        if self.mode == OverlayMode::Editor {
            self.editor_field_index = if self.editor_field_index == 0 { 11 } else { self.editor_field_index - 1 };
            return;
        }
        match self.overlay_focus {
            OverlayFocus::ProfileList => {
                if self.profiles.len() == 0 {
                    return;
                }
                let next = step_up(self.profiles.len(), self.list_state.selected());
                self.list_state.select(next);
            },
            OverlayFocus::EffortList => {
                let next = step_up(4, self.effort_state.selected());
                self.effort_state.select(next);
            },
        }
    }

    /// Moves focus between the profile list and the effort picker.
    pub fn cycle_inner_focus(&mut self)
        ensures
            *final(self) == cycle_spec(*old(self)),
    {
        if !self.shows_effort_picker() {
            return;
        }
        self.overlay_focus = match self.overlay_focus {
            OverlayFocus::ProfileList => OverlayFocus::EffortList,
            OverlayFocus::EffortList => OverlayFocus::ProfileList,
        };
    }

    /// The switch to the highlighted profile, when it can be made.
    pub fn commit_command(&self, ctx: &EventContext) -> (r: Option<Command>)
        ensures
            r is Some <==> can_commit(*self, *ctx.current_session_id),
            r matches Some(c) ==> commit_ok(*self, *ctx.workspace_id, *ctx.current_session_id, c),
    {
        let entry = match self.selected_profile() {
            Some(e) => e,
            None => return None,
        };
        if !entry.enabled {
            return None;
        }
        let session_id = match ctx.current_session_id {
            Some(s) => s.clone(),
            None => return None,
        };
        let reasoning_effort = if entry.supports_reasoning {
            match self.selected_effort() {
                Some(e) => Some(copy_str(e)),
                None => None,
            }
        } else {
            None
        };
        Some(Command::SwitchModel {
            workspace_id: ctx.workspace_id.clone(),
            session_id,
            alias: entry.alias.clone(),
            reasoning_effort,
        })
    }

    /// The profile command a key asks for.
    pub fn settings_command(&self, code: KeyCode) -> (r: Option<Command>)
        ensures
            r == settings_command_spec(*self, code),
    {
        if code == KeyCode::Char('o') || code == KeyCode::Char('O') {
            return Some(Command::OpenProfilesConfig);
        }
        let e = match self.selected_profile() {
            Some(e) => e,
            None => return None,
        };
        if code == KeyCode::Char('e') || code == KeyCode::Char('E') {
            Some(Command::SetProfileEnabled { alias: e.alias.clone(), enabled: !e.enabled })
        } else if code == KeyCode::Char('x') || code == KeyCode::Char('X') || code == KeyCode::Delete {
            if e.writable {
                Some(Command::DeleteProfileSettings { alias: e.alias.clone() })
            } else {
                None
            }
        } else if code == KeyCode::Char('J') {
            Some(Command::MoveProfileInOrder { alias: e.alias.clone(), direction: 1 })
        } else if code == KeyCode::Char('K') {
            Some(Command::MoveProfileInOrder { alias: e.alias.clone(), direction: -1 })
        } else if code == KeyCode::Char('t') || code == KeyCode::Char('T') {
            Some(Command::TestModelProfile { alias: e.alias.clone() })
        } else {
            None
        }
    }

    /// Testing the draft's base URL.
    pub fn draft_test_command(&self) -> (r: Option<Command>)
        ensures
            draft_test_ok(self.draft@, r),
    {
        let base_url = trim(self.draft.base_url.as_str());
        if base_url.as_str().unicode_len() == 0 {
            return None;
        }
        let alias = trim(self.draft.alias.as_str());
        let name = if alias.as_str().unicode_len() == 0 { base_url.clone() } else { alias };
        Some(Command::TestModelProfileUrl { alias: name, base_url })
    }

    /// A key in the profile list.
    pub fn handle_list_key(&mut self, ctx: &EventContext, code: KeyCode) -> (out: (Vec<CrossPanelEffect>, Vec<Command>))
        requires
            old(self).wf(),
        ensures
            final(self).wf(),
            list_key_ok(*old(self), *final(self), *ctx.workspace_id, *ctx.current_session_id, code, out.0@, out.1@),
    {
        if code == KeyCode::Char('j') || code == KeyCode::Down {
            self.move_down();
        } else if code == KeyCode::Char('k') || code == KeyCode::Up {
            self.move_up();
        } else if code == KeyCode::Tab || code == KeyCode::Char('l') || code == KeyCode::Char('h') {
            self.cycle_inner_focus();
        } else if code == KeyCode::Char('n') || code == KeyCode::Char('N') {
            self.start_create();
        } else if code == KeyCode::Char('u') || code == KeyCode::Char('U') {
            self.start_edit_selected();
        } else if code == KeyCode::Char('e') || code == KeyCode::Char('E') || code == KeyCode::Char('x')
            || code == KeyCode::Char('X') || code == KeyCode::Char('J') || code == KeyCode::Char('K')
            || code == KeyCode::Char('t') || code == KeyCode::Char('T') || code == KeyCode::Char('o')
            || code == KeyCode::Char('O') || code == KeyCode::Delete {
            let cmds: Vec<Command> = match self.settings_command(code) {
                Some(c) => {
                    let ghost g = c;
                    let v = vec![c];
                    assert(v@ =~= seq![g]);
                    v
                },
                None => Vec::new(),
            };
            assert(cmds@ =~= opt_seq(settings_command_spec(*self, code)));
            return (Vec::new(), cmds);
        } else if code == KeyCode::Esc {
            self.dismiss();
            let effects = vec![CrossPanelEffect::DismissModelOverlay];
            assert(effects@ =~= seq![CrossPanelEffect::DismissModelOverlay]);
            return (effects, Vec::new());
        } else if code == KeyCode::Enter {
            match self.commit_command(ctx) {
                Some(c) => {
                    let cmds = vec![c];
                    self.dismiss();
                    let effects = vec![CrossPanelEffect::DismissModelOverlay];
                    assert(effects@ =~= seq![CrossPanelEffect::DismissModelOverlay]);
                    return (effects, cmds);
                },
                None => {},
            }
        }
        (Vec::new(), Vec::new())
    }

    /// A key in the profile editor.
    pub fn handle_editor_key(&mut self, key: KeyInput) -> (out: (Vec<CrossPanelEffect>, Vec<Command>))
        requires
            old(self).wf(),
        ensures
            final(self).wf(),
            out.0@.len() == 0,
            editor_key_ok(*old(self), *final(self), key, out.1@),
    {
        match key.code {
            KeyCode::Down | KeyCode::Tab => self.move_down(),
            KeyCode::Up | KeyCode::BackTab => self.move_up(),
            KeyCode::Esc => self.mode = OverlayMode::List,
            KeyCode::Backspace => {
                let f = self.current_editor_field();
                self.draft.backspace(f);
            },
            KeyCode::Delete => {
                let f = self.current_editor_field();
                self.draft.clear_field(f);
            },
            KeyCode::Enter => {
                if let Some(input) = self.draft.to_input() {
                    self.mode = OverlayMode::List;
                    return (Vec::new(), vec![Command::SaveProfileSettings { input }]);
                }
            },
            KeyCode::Char(ch) => {
                if key.control {
                    if ch == 't' || ch == 'T' {
                        if let Some(c) = self.draft_test_command() {
                            return (Vec::new(), vec![c]);
                        }
                    }
                } else {
                    let f = self.current_editor_field();
                    self.draft.push_char(f, ch);
                }
            },
            _ => {},
        }
        (Vec::new(), Vec::new())
    }

    /// A key press. A hidden overlay ignores it.
    pub fn handle_event(&mut self, ctx: &EventContext, key: KeyInput) -> (out: (Vec<CrossPanelEffect>, Vec<Command>))
        requires
            old(self).wf(),
        ensures
            final(self).wf(),
            !old(self).visible ==> *final(self) == *old(self) && out.0@.len() == 0 && out.1@.len() == 0,
            old(self).visible && old(self).mode == OverlayMode::List ==> list_key_ok(
                *old(self),
                *final(self),
                *ctx.workspace_id,
                *ctx.current_session_id,
                key.code,
                out.0@,
                out.1@,
            ),
            old(self).visible && old(self).mode == OverlayMode::Editor ==> out.0@.len() == 0 && editor_key_ok(
                *old(self),
                *final(self),
                key,
                out.1@,
            ),
    {
        if !self.visible {
            return (Vec::new(), Vec::new());
        }
        match self.mode {
            OverlayMode::List => self.handle_list_key(ctx, key.code),
            OverlayMode::Editor => self.handle_editor_key(key),
        }
    }

    /// An effect from another panel.
    pub fn handle_effect(&mut self, effect: CrossPanelEffect)
        requires
            old(self).wf(),
        ensures
            final(self).wf(),
            effect_ok(*old(self), *final(self), effect),
    {
        match effect {
            CrossPanelEffect::ShowModelOverlay(snapshot) => self.show(snapshot),
            CrossPanelEffect::ModelProfileTested(result) => self.set_test_result(result),
            CrossPanelEffect::DismissModelOverlay => self.dismiss(),
            _ => {},
        }
    }

    /// Puts given settings in the editor and opens it.
    pub fn replace_draft_for_test(&mut self, input: ProfileSettingsInput)
        ensures
            *final(self) == (ModelOverlay { draft: final(self).draft, mode: OverlayMode::Editor, visible: true, ..*old(self) }),
            final(self).draft@ == draft_of_input(input),
    {
        self.draft = ProfileDraft::from_input(input);
        self.mode = OverlayMode::Editor;
        self.visible = true;
    }

    /// Whether the overlay has keyboard focus.
    pub fn focused(&self) -> (b: bool)
        ensures
            b == self.focused,
    {
        self.focused
    }

    /// Gives or takes keyboard focus.
    pub fn set_focused(&mut self, focused: bool)
        ensures
            *final(self) == (ModelOverlay { focused, ..*old(self) }),
    {
        self.focused = focused;
    }
}

} // verus!
