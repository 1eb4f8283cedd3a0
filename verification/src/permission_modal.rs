//! Permission modal: a queue of tool-permission requests awaiting the
//! user's decision, the one currently shown, and a short history of
//! decisions.

use vstd::prelude::*;

use crate::commands::Command;
use crate::effects::CrossPanelEffect;
use crate::keys::{KeyCode, KeyInput};

verus! {

/// Number of decisions the modal remembers.
pub const MAX_HISTORY: usize = 6;

/// How risky the requested tool call is.
#[derive(Debug, PartialEq, Eq)]
pub enum RiskLevel {
    Destructive,
    Write,
    McpTool { server_id: String },
}

/// A tool call waiting for the user's permission.
#[derive(Debug, PartialEq, Eq)]
pub struct PermissionRequest {
    pub request_id: String,
    pub tool_id: String,
    pub tool_preview: String,
    pub risk_level: RiskLevel,
}

/// A request that was decided, with the decision.
#[derive(Debug, PartialEq, Eq)]
pub struct PermissionHistoryEntry {
    pub request: PermissionRequest,
    pub approved: bool,
}

impl Clone for RiskLevel {
    fn clone(&self) -> (r: Self)
        ensures
            r == *self,
    {
        match self {
            RiskLevel::Destructive => RiskLevel::Destructive,
            RiskLevel::Write => RiskLevel::Write,
            RiskLevel::McpTool { server_id } => RiskLevel::McpTool { server_id: server_id.clone() },
        }
    }
}

impl Clone for PermissionRequest {
    fn clone(&self) -> (r: Self)
        ensures
            r == *self,
    {
        PermissionRequest {
            request_id: self.request_id.clone(),
            tool_id: self.tool_id.clone(),
            tool_preview: self.tool_preview.clone(),
            risk_level: self.risk_level.clone(),
        }
    }
}

impl Clone for PermissionHistoryEntry {
    fn clone(&self) -> (r: Self)
        ensures
            r == *self,
    {
        PermissionHistoryEntry { request: self.request.clone(), approved: self.approved }
    }
}

/// The modal's state. `request` is the request on screen; it is shown while
/// it is `Some`.
pub struct PermissionModal {
    pub focused: bool,
    pub request: Option<PermissionRequest>,
    pub pending_requests: Vec<PermissionRequest>,
    pub history: Vec<PermissionHistoryEntry>,
}

/// The abstract state of the modal.
pub struct ModalView {
    pub focused: bool,
    pub request: Option<PermissionRequest>,
    pub pending: Seq<PermissionRequest>,
    pub history: Seq<PermissionHistoryEntry>,
}

impl View for PermissionModal {
    type V = ModalView;

    open spec fn view(&self) -> ModalView {
        ModalView {
            focused: self.focused,
            request: self.request,
            pending: self.pending_requests@,
            history: self.history@,
        }
    }
}

/// Some request in `s` carries the identifier `id`.
pub open spec fn has_id(s: Seq<PermissionRequest>, id: Seq<char>) -> bool {
    exists|i: int| 0 <= i < s.len() && #[trigger] s[i].request_id@ == id
}

/// `i` is the first position in `s` whose request carries `id`.
pub open spec fn is_first_with_id(s: Seq<PermissionRequest>, id: Seq<char>, i: int) -> bool {
    &&& 0 <= i < s.len()
    &&& s[i].request_id@ == id
    &&& forall|j: int| 0 <= j < i ==> #[trigger] s[j].request_id@ != id
}

/// The first position in `s` whose request carries `id` (meaningful when
/// `has_id(s, id)`).
pub open spec fn first_index(s: Seq<PermissionRequest>, id: Seq<char>) -> int {
    choose|i: int| is_first_with_id(s, id, i)
}

/// No two queued requests share an identifier.
pub open spec fn unique_ids(s: Seq<PermissionRequest>) -> bool {
    forall|i: int, j: int|
        0 <= i < j < s.len() ==> #[trigger] s[i].request_id@ != #[trigger] s[j].request_id@
}

/// The request shown for a queue: its head.
pub open spec fn head_of(s: Seq<PermissionRequest>) -> Option<PermissionRequest> {
    if s.len() > 0 {
        Some(s[0])
    } else {
        None
    }
}

/// History after appending one entry: only the last `MAX_HISTORY` stay.
pub open spec fn bounded_push(h: Seq<PermissionHistoryEntry>, e: PermissionHistoryEntry) -> Seq<
    PermissionHistoryEntry,
> {
    let h1 = h.push(e);
    if h1.len() > MAX_HISTORY {
        h1.subrange(h1.len() - MAX_HISTORY, h1.len() as int)
    } else {
        h1
    }
}

/// `id` is already queued or on screen.
pub open spec fn is_known(m: ModalView, id: Seq<char>) -> bool {
    has_id(m.pending, id) || (m.request matches Some(r) && r.request_id@ == id)
}

/// The state after `enqueue_request(req)`.
pub open spec fn enqueue_spec(m: ModalView, req: PermissionRequest) -> ModalView {
    if is_known(m, req.request_id@) {
        m
    } else {
        let pending = m.pending.push(req);
        ModalView {
            request: if m.request is None { head_of(pending) } else { m.request },
            pending,
            ..m
        }
    }
}

/// The request that `resolve_request(id, _)` takes out, if any.
pub open spec fn resolved_of(m: ModalView, id: Seq<char>) -> Option<PermissionRequest> {
    if has_id(m.pending, id) {
        Some(m.pending[first_index(m.pending, id)])
    } else if m.request matches Some(r) && r.request_id@ == id {
        m.request
    } else {
        None
    }
}

/// The queue after `resolve_request(id, _)`.
pub open spec fn pending_after_resolve(m: ModalView, id: Seq<char>) -> Seq<PermissionRequest> {
    if has_id(m.pending, id) {
        m.pending.remove(first_index(m.pending, id))
    } else {
        m.pending
    }
}

/// The state after `resolve_request(id, approved)`: the request leaves the
/// queue (or the screen), enters the history with its decision, and the
/// head of the queue is shown next.
pub open spec fn resolve_spec(m: ModalView, id: Seq<char>, approved: bool) -> ModalView {
    let pending = pending_after_resolve(m, id);
    ModalView {
        focused: m.focused,
        request: head_of(pending),
        pending,
        history: match resolved_of(m, id) {
            Some(r) => bounded_push(m.history, PermissionHistoryEntry { request: r, approved }),
            None => m.history,
        },
    }
}

/// The state that the modal keeps on its own: the head of the queue is on
/// screen, identifiers are unique, and the history is bounded.
pub open spec fn modal_wf(m: ModalView) -> bool {
    &&& unique_ids(m.pending)
    &&& m.request == head_of(m.pending)
    &&& m.history.len() <= MAX_HISTORY
}

/// What a key press does while a request is on screen: which decision it
/// makes, if any.
pub open spec fn key_decision(code: KeyCode, risk: RiskLevel) -> Option<bool> {
    match code {
        KeyCode::Char(c) => if c == 'y' || c == 'Y' {
            Some(true)
        } else if c == 'n' || c == 'N' || c == 'd' || c == 'D' {
            Some(false)
        } else if (c == 't' || c == 'T') && risk is McpTool {
            Some(true)
        } else {
            None
        },
        KeyCode::Esc => Some(false),
        _ => None,
    }
}

/// What a key press does while `m.request` is on screen: the state after
/// it, the effects and the commands it gives.
pub open spec fn key_outcome(m: ModalView, code: KeyCode) -> (ModalView, Seq<CrossPanelEffect>, Seq<Command>) {
    let q = m.request.unwrap();
    match key_decision(code, q.risk_level) {
        None => (m, Seq::empty(), Seq::empty()),
        Some(approved) => (
            resolve_spec(m, q.request_id@, approved),
            seq![CrossPanelEffect::DismissPermissionPrompt],
            decision_commands(m, q, code, approved),
        ),
    }
}

proof fn lemma_first_index(s: Seq<PermissionRequest>, id: Seq<char>, i: int)
    requires
        is_first_with_id(s, id, i),
    ensures
        first_index(s, id) == i,
{
    let k = first_index(s, id);
    assert(is_first_with_id(s, id, k));
    if k < i {
        assert(s[k].request_id@ != id);
    }
    if i < k {
        assert(s[i].request_id@ != id);
    }
}


proof fn lemma_first_below(s: Seq<PermissionRequest>, id: Seq<char>, k: int)
    requires
        0 <= k < s.len(),
        s[k].request_id@ == id,
    ensures
        exists|i: int| is_first_with_id(s, id, i),
    decreases k,
{
    if exists|j: int| 0 <= j < k && #[trigger] s[j].request_id@ == id {
        let j = choose|j: int| 0 <= j < k && #[trigger] s[j].request_id@ == id;
        lemma_first_below(s, id, j);
    } else {
        assert(is_first_with_id(s, id, k));
    }
}

/// When `id` is queued, `first_index` names its first position.
pub proof fn lemma_first_index_exists(s: Seq<PermissionRequest>, id: Seq<char>)
    requires
        has_id(s, id),
    ensures
        is_first_with_id(s, id, first_index(s, id)),
{
    let k = choose|k: int| 0 <= k < s.len() && #[trigger] s[k].request_id@ == id;
    lemma_first_below(s, id, k);
}

/// Queueing a request keeps the modal's own state: unique identifiers, the
/// head of the queue on screen, a bounded history.
pub proof fn law_enqueue_preserves_wf(m: ModalView, req: PermissionRequest)
    requires
        modal_wf(m),
    ensures
        modal_wf(enqueue_spec(m, req)),
{
    if !is_known(m, req.request_id@) {
        let p = m.pending.push(req);
        assert forall|i: int, j: int| 0 <= i < j < p.len() implies #[trigger] p[i].request_id@
            != #[trigger] p[j].request_id@ by {
            if j == p.len() - 1 {
                assert(p[i] == m.pending[i]);
                assert(!has_id(m.pending, req.request_id@));
            }
        }
        if m.request is Some {
            assert(m.pending.len() > 0);
            assert(p[0] == m.pending[0]);
        }
    }
}

/// Resolving a request keeps the modal's own state.
pub proof fn law_resolve_preserves_wf(m: ModalView, id: Seq<char>, approved: bool)
    requires
        modal_wf(m),
    ensures
        modal_wf(resolve_spec(m, id, approved)),
{
    let r = resolve_spec(m, id, approved);
    if has_id(m.pending, id) {
        lemma_first_index_exists(m.pending, id);
        let k = first_index(m.pending, id);
        let p = m.pending.remove(k);
        assert forall|i: int, j: int| 0 <= i < j < p.len() implies #[trigger] p[i].request_id@
            != #[trigger] p[j].request_id@ by {
            let i0 = if i < k { i } else { i + 1 };
            let j0 = if j < k { j } else { j + 1 };
            assert(p[i] == m.pending[i0]);
            assert(p[j] == m.pending[j0]);
        }
    }
}

/// Queueing the same request twice is the same as queueing it once.
pub proof fn law_enqueue_idempotent(m: ModalView, req: PermissionRequest)
    ensures
        enqueue_spec(enqueue_spec(m, req), req) == enqueue_spec(m, req),
{
    let m1 = enqueue_spec(m, req);
    if !is_known(m, req.request_id@) {
        let last = m1.pending.len() - 1;
        assert(m1.pending[last].request_id@ == req.request_id@);
        assert(has_id(m1.pending, req.request_id@));
    }
}

/// Deciding a request that was just queued gives back the queue as it was
/// and records the decision as the newest history entry.
pub proof fn law_enqueue_then_resolve(m: ModalView, req: PermissionRequest, approved: bool)
    requires
        modal_wf(m),
        !is_known(m, req.request_id@),
    ensures
        ({
            let r = resolve_spec(enqueue_spec(m, req), req.request_id@, approved);
            &&& r.pending == m.pending
            &&& r.request == m.request
            &&& r.history == bounded_push(m.history, PermissionHistoryEntry { request: req, approved })
        }),
{
    let m1 = enqueue_spec(m, req);
    let id = req.request_id@;
    let last = m1.pending.len() - 1;
    assert(is_first_with_id(m1.pending, id, last)) by {
        assert forall|j: int| 0 <= j < last implies #[trigger] m1.pending[j].request_id@ != id by {
            assert(m1.pending[j] == m.pending[j]);
        }
    }
    lemma_first_index(m1.pending, id, last);
    assert(m1.pending.remove(last) =~= m.pending);
}

/// Deciding an identifier that is neither queued nor on screen changes
/// nothing.
pub proof fn law_resolve_unknown_is_noop(m: ModalView, id: Seq<char>, approved: bool)
    requires
        modal_wf(m),
        !is_known(m, id),
    ensures
        resolve_spec(m, id, approved) == m,
{
}

/// A fresh modal is in its own state.
pub proof fn law_new_is_wf(m: ModalView)
    requires
        m.request is None,
        m.pending.len() == 0,
        m.history.len() == 0,
    ensures
        modal_wf(m),
{
}

/// The commands of a decision on the request on screen: trusting the MCP
/// server first when `t` allowed an MCP tool, then the decision itself.
pub open spec fn decision_commands(m: ModalView, q: PermissionRequest, code: KeyCode, approved: bool) -> Seq<Command> {
    let r = resolved_of(m, q.request_id@).unwrap();
    let decide = Command::DecidePermission { request_id: r.request_id, approved };
    match q.risk_level {
        RiskLevel::McpTool { server_id } => if code == KeyCode::Char('t') || code == KeyCode::Char('T') {
            seq![Command::TrustMcpServer { server_id }, decide]
        } else {
            seq![decide]
        },
        _ => seq![decide],
    }
}

/// A decision enters the history as its newest entry, and the history keeps
/// the last `MAX_HISTORY` entries, in order: the entries before it, then
/// it, with the oldest dropped once there are more than `MAX_HISTORY`.
pub proof fn law_history_keeps_newest(h: Seq<PermissionHistoryEntry>, e: PermissionHistoryEntry)
    ensures
        ({
            let r = bounded_push(h, e);
            let all = h.push(e);
            &&& r.len() == if all.len() > MAX_HISTORY { MAX_HISTORY as nat } else { all.len() }
            &&& r.len() <= MAX_HISTORY
            &&& r.last() == e
            &&& forall|i: int| 0 <= i < r.len() ==> #[trigger] r[i] == all[all.len() - r.len() + i]
        }),
{
}

/// Every decision on a known request enters the modal's history as its
/// newest entry, the earlier entries keep their order, and only the last
/// `MAX_HISTORY` decisions are kept; deciding an unknown identifier leaves
/// the history as it was.
pub proof fn law_decision_enters_history(m: ModalView, id: Seq<char>, approved: bool)
    ensures
        ({
            let n = resolve_spec(m, id, approved);
            match resolved_of(m, id) {
                Some(r) => {
                    let all = m.history.push(PermissionHistoryEntry { request: r, approved });
                    &&& n.history.len() == if all.len() > MAX_HISTORY { MAX_HISTORY as nat } else { all.len() }
                    &&& n.history.last() == (PermissionHistoryEntry { request: r, approved })
                    &&& forall|i: int| 0 <= i < n.history.len() ==> #[trigger] n.history[i] == all[all.len() - n.history.len() + i]
                },
                None => n.history == m.history,
            }
        }),
{
    match resolved_of(m, id) {
        Some(r) => law_history_keeps_newest(m.history, PermissionHistoryEntry { request: r, approved }),
        None => {},
    }
}

/// Which keys decide the request on screen: `n`, `N`, `d`, `D` and Esc
/// deny it, whatever it is; `y` and `Y` allow it; `t` and `T` allow it only
/// when it is an MCP tool request. No other key decides anything.
pub proof fn law_keys_decide(code: KeyCode, risk: RiskLevel)
    ensures
        key_decision(code, risk) == Some(false) <==> (code == KeyCode::Esc || code == KeyCode::Char('n')
            || code == KeyCode::Char('N') || code == KeyCode::Char('d') || code == KeyCode::Char('D')),
        key_decision(code, risk) == Some(true) <==> (code == KeyCode::Char('y') || code == KeyCode::Char('Y')
            || ((code == KeyCode::Char('t') || code == KeyCode::Char('T')) && risk is McpTool)),
{
}

/// A decision on the request on screen is recorded as it was made: the
/// newest history entry is that request with that decision, and the last
/// command sent is the decision itself, for that request.
pub proof fn law_decision_recorded(m: ModalView, q: PermissionRequest, code: KeyCode, approved: bool)
    requires
        m.request == Some(q),
        modal_wf(m),
    ensures
        resolved_of(m, q.request_id@) == Some(q),
        resolve_spec(m, q.request_id@, approved).history.last() == (PermissionHistoryEntry { request: q, approved }),
        decision_commands(m, q, code, approved).last() == (Command::DecidePermission { request_id: q.request_id, approved }),
{
    assert(m.pending[0] == q);
    assert(is_first_with_id(m.pending, q.request_id@, 0));
    lemma_first_index(m.pending, q.request_id@, 0);
    assert(has_id(m.pending, q.request_id@));
    law_history_keeps_newest(m.history, PermissionHistoryEntry { request: q, approved });
}

/// A key press on the request on screen decides it as the key says, for
/// every request: Esc, `n`, `N`, `d` and `D` deny it; `y` and `Y` allow it,
/// and so do `t` and `T` on an MCP tool request; the decision is the newest
/// history entry and the last command, and the prompt is dismissed. Any
/// other key changes nothing and asks for nothing.
pub proof fn law_key_press_decides(m: ModalView, code: KeyCode)
    requires
        modal_wf(m),
        m.request is Some,
    ensures
        ({
            let q = m.request.unwrap();
            let o = key_outcome(m, code);
            let denies = code == KeyCode::Esc || code == KeyCode::Char('n') || code == KeyCode::Char('N')
                || code == KeyCode::Char('d') || code == KeyCode::Char('D');
            let allows = code == KeyCode::Char('y') || code == KeyCode::Char('Y') || ((code
                == KeyCode::Char('t') || code == KeyCode::Char('T')) && q.risk_level is McpTool);
            &&& denies ==> o.0.history.last() == (PermissionHistoryEntry { request: q, approved: false })
                && o.2.last() == (Command::DecidePermission { request_id: q.request_id, approved: false })
                && o.1 == seq![CrossPanelEffect::DismissPermissionPrompt]
            &&& allows ==> o.0.history.last() == (PermissionHistoryEntry { request: q, approved: true })
                && o.2.last() == (Command::DecidePermission { request_id: q.request_id, approved: true })
                && o.1 == seq![CrossPanelEffect::DismissPermissionPrompt]
            &&& !denies && !allows ==> o == (m, Seq::<CrossPanelEffect>::empty(), Seq::<Command>::empty())
        }),
{
    let q = m.request.unwrap();
    law_keys_decide(code, q.risk_level);
    law_decision_recorded(m, q, code, false);
    law_decision_recorded(m, q, code, true);
}

impl PermissionModal {
    /// An empty modal: nothing queued, nothing shown.
    pub fn new() -> (m: PermissionModal)
        ensures
            !m.focused,
            m.request is None,
            m@.pending.len() == 0,
            m@.history.len() == 0,
    {
        PermissionModal {
            focused: false,
            request: None,
            pending_requests: Vec::new(),
            history: Vec::new(),
        }
    }

    /// The modal is shown while a request is on screen.
    pub fn is_visible(&self) -> (b: bool)
        ensures
            b == self.request.is_some(),
    {
        self.request.is_some()
    }

    /// Position of the first queued request with the given identifier.
    fn position_of(&self, id: &String) -> (r: Option<usize>)
        ensures
            r is None <==> !has_id(self@.pending, id@),
            r matches Some(i) ==> is_first_with_id(self@.pending, id@, i as int),
    {
        let mut i: usize = 0;
        while i < self.pending_requests.len()
            invariant
                i <= self.pending_requests.len(),
                forall|j: int| 0 <= j < i ==> #[trigger] self@.pending[j].request_id@ != id@,
            decreases self.pending_requests.len() - i,
        {
            if self.pending_requests[i].request_id == *id {
                return Some(i);
            }
            i = i + 1;
        }
        None
    }

    /// Whether the identifier is queued or on screen.
    fn knows(&self, id: &String) -> (b: bool)
        ensures
            b == is_known(self@, id@),
    {
        if self.position_of(id).is_some() {
            return true;
        }
        match &self.request {
            Some(r) => r.request_id == *id,
            None => false,
        }
    }

    /// Queues a request unless its identifier is already queued or on screen;
    /// shows it right away when nothing is on screen.
    pub fn enqueue_request(&mut self, request: PermissionRequest)
        ensures
            final(self)@ == enqueue_spec(old(self)@, request),
    {
        if self.knows(&request.request_id) {
            return;
        }
        self.pending_requests.push(request);
        if self.request.is_none() {
            self.sync_active_request();
        }
    }

    /// Resolves the request on screen with the given decision.
    pub fn resolve_active_request(&mut self, approved: bool) -> (r: Option<PermissionRequest>)
        ensures
            old(self).request is None ==> r is None && final(self)@ == old(self)@,
            old(self).request matches Some(q) ==> {
                &&& r == resolved_of(old(self)@, q.request_id@)
                &&& final(self)@ == resolve_spec(old(self)@, q.request_id@, approved)
            },
    {
        let request_id = match &self.request {
            Some(q) => q.request_id.clone(),
            None => return None,
        };
        self.resolve_request(&request_id, approved)
    }

    /// Takes the request with the given identifier out of the queue (or off
    /// the screen), records the decision, and shows the next queued request.
    pub fn resolve_request(&mut self, request_id: &String, approved: bool) -> (r: Option<
        PermissionRequest,
    >)
        ensures
            r == resolved_of(old(self)@, request_id@),
            final(self)@ == resolve_spec(old(self)@, request_id@, approved),
    {
        let ghost m0 = self@;
        let resolved = match self.position_of(request_id) {
            Some(index) => {
                proof {
                    lemma_first_index(m0.pending, request_id@, index as int);
                }
                Some(self.pending_requests.remove(index))
            },
            None => {
                let on_screen = match &self.request {
                    Some(q) => q.request_id == *request_id,
                    None => false,
                };
                if on_screen {
                    self.request.take()
                } else {
                    None
                }
            },
        };
        match &resolved {
            Some(q) => self.push_history(q.clone(), approved),
            None => {},
        }
        self.sync_active_request();
        assert(self@.pending == pending_after_resolve(m0, request_id@));
        resolved
    }

    /// Shows the head of the queue (nothing when the queue is empty).
    fn sync_active_request(&mut self)
        ensures
            final(self)@ == (ModalView { request: head_of(old(self)@.pending), ..old(self)@ }),
    {
        self.request = if self.pending_requests.len() > 0 {
            Some(self.pending_requests[0].clone())
        } else {
            None
        };
    }

    /// Records a decision, keeping only the last `MAX_HISTORY` entries.
    fn push_history(&mut self, request: PermissionRequest, approved: bool)
        ensures
            final(self)@ == (ModalView {
                history: bounded_push(old(self)@.history, PermissionHistoryEntry { request, approved }),
                ..old(self)@
            }),
    {
        self.history.push(PermissionHistoryEntry { request, approved });
        if self.history.len() > MAX_HISTORY {
            let excess = self.history.len() - MAX_HISTORY;
            self.history = self.history.split_off(excess);
        }
    }

    /// Handles a key press. `None` when nothing is on screen; otherwise the
    /// effects and commands of the decision the key makes (none for other
    /// keys): `y` allows, `n`/`d`/Esc deny, and `t` trusts the MCP server of
    /// an MCP tool request and allows it.
    pub fn handle_key_event(&mut self, code: KeyCode) -> (out: Option<
        (Vec<CrossPanelEffect>, Vec<Command>),
    >)
        ensures
            old(self).request is None ==> out is None && final(self)@ == old(self)@,
            old(self).request matches Some(q) ==> {
                let id = q.request_id@;
                &&& out is Some
                &&& match key_decision(code, q.risk_level) {
                    None => {
                        &&& final(self)@ == old(self)@
                        &&& out.unwrap().0@.len() == 0
                        &&& out.unwrap().1@.len() == 0
                    },
                    Some(approved) => {
                        &&& final(self)@ == resolve_spec(old(self)@, id, approved)
                        &&& out.unwrap().0@ == seq![CrossPanelEffect::DismissPermissionPrompt]
                        &&& out.unwrap().1@ == decision_commands(old(self)@, q, code, approved)
                    },
                }
            },
            old(self).request is Some ==> (out matches Some(r) && (final(self)@, r.0@, r.1@) == key_outcome(
                old(self)@,
                code,
            )),
    {
        let (id, trust_server) = match &self.request {
            None => return None,
            Some(q) => {
                let server = match &q.risk_level {
                    RiskLevel::McpTool { server_id } => Some(server_id.clone()),
                    _ => None,
                };
                (q.request_id.clone(), server)
            },
        };
        let ghost m0 = self@;
        let mut effects: Vec<CrossPanelEffect> = Vec::new();
        let mut commands: Vec<Command> = Vec::new();
        let decision: Option<bool> = match code {
            KeyCode::Char('y') | KeyCode::Char('Y') => Some(true),
            KeyCode::Char('n') | KeyCode::Char('N') | KeyCode::Char('d') | KeyCode::Char('D')
            | KeyCode::Esc => Some(false),
            KeyCode::Char('t') | KeyCode::Char('T') => if trust_server.is_some() {
                Some(true)
            } else {
                None
            },
            _ => None,
        };
        match decision {
            None => {},
            Some(approved) => {
                let r = match self.resolve_request(&id, approved) {
                    Some(r) => r,
                    None => return Some((effects, commands)),
                };
                let is_trust = match code {
                    KeyCode::Char('t') | KeyCode::Char('T') => true,
                    _ => false,
                };
                if is_trust {
                    match trust_server {
                        Some(server_id) => commands.push(Command::TrustMcpServer { server_id }),
                        None => {},
                    }
                }
                commands.push(Command::DecidePermission { request_id: r.request_id, approved });
                effects.push(CrossPanelEffect::DismissPermissionPrompt);
            },
        }
        Some((effects, commands))
    }

    /// Handles a key press: the effects and commands of
    /// [`Self::handle_key_event`], or none when nothing is on screen.
    pub fn handle_key(&mut self, key: KeyInput) -> (out: (Vec<CrossPanelEffect>, Vec<Command>))
        ensures
            old(self).request is None ==> out.0@.len() == 0 && out.1@.len() == 0 && final(self)@
                == old(self)@,
            old(self).request matches Some(q) ==> match key_decision(key.code, q.risk_level) {
                None => final(self)@ == old(self)@ && out.0@.len() == 0 && out.1@.len() == 0,
                Some(approved) => final(self)@ == resolve_spec(
                    old(self)@,
                    q.request_id@,
                    approved,
                ) && out.0@ == seq![CrossPanelEffect::DismissPermissionPrompt]
                    && out.1@ == decision_commands(old(self)@, q, key.code, approved),
            },
            old(self).request is Some ==> (final(self)@, out.0@, out.1@) == key_outcome(old(self)@, key.code),
    {
        match self.handle_key_event(key.code) {
            Some(out) => out,
            None => (Vec::new(), Vec::new()),
        }
    }

    /// Reacts to a cross-panel effect: a prompt is queued, a resolution
    /// from elsewhere is recorded; other effects change nothing.
    pub fn handle_effect(&mut self, effect: CrossPanelEffect)
        ensures
            match effect {
                CrossPanelEffect::ShowPermissionPrompt(req) => final(self)@ == enqueue_spec(
                    old(self)@,
                    req,
                ),
                CrossPanelEffect::ResolvePermissionPrompt { request_id, approved } => final(self)@
                    == resolve_spec(old(self)@, request_id@, approved),
                _ => final(self)@ == old(self)@,
            },
    {
        match effect {
            CrossPanelEffect::ShowPermissionPrompt(req) => self.enqueue_request(req),
            CrossPanelEffect::ResolvePermissionPrompt { request_id, approved } => {
                self.resolve_request(&request_id, approved);
            },
            _ => {},
        }
    }
}

impl Default for PermissionModal {
    /// The same as [`PermissionModal::new`].
    fn default() -> (m: Self)
        ensures
            !m.focused,
            m.request is None,
            m@.pending.len() == 0,
            m@.history.len() == 0,
    {
        PermissionModal::new()
    }
}

} // verus!
