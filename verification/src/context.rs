//! Read-only state that the application hands to a panel with each key.

use vstd::prelude::*;

use crate::ids::{SessionId, WorkspaceId};
use crate::sessions::types::{ProjectInfo, SessionInfo};
use crate::FocusTarget;

verus! {

/// Shared state passed to panels on every event.
pub struct EventContext<'a> {
    pub focus: FocusTarget,
    pub projects: &'a [ProjectInfo],
    pub sessions: &'a [SessionInfo],
    pub model_profile: &'a str,
    pub sidebar_left_visible: bool,
    pub sidebar_right_visible: bool,
    pub workspace_id: &'a WorkspaceId,
    pub current_session_id: &'a Option<SessionId>,
}

} // verus!
