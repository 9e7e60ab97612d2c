use vstd::prelude::*;
use vstd::string::*;

use crate::messages::{
    data_fallback, error_fallback, gql_complete, gql_connection_ack, gql_connection_error,
    gql_connection_ka, gql_data, gql_error, opt_string_view, payload_or, spec_bare_message,
    spec_complete_message, spec_data_message, spec_error_message,
};
use crate::ws_util::{GraphQLOverWebSocketMessage, SubscriptionState, SubscriptionStateHandler};

verus! {

/// Seconds between two keep-alive messages once a connection is initialized.
pub const KEEP_ALIVE_INTERVAL_SECS: u64 = 10;

/// A client text message, decoded: its text (trimmed), its optional
/// operation id, its type, and whether it carries a payload with a query.
#[derive(Debug, Clone, PartialEq, Eq)]
pub struct ClientMessage {
    pub text: String,
    pub id: Option<String>,
    pub kind: GraphQLOverWebSocketMessage,
    pub has_query: bool,
}

/// One websocket frame received from the client.
#[derive(Debug, Clone, PartialEq, Eq)]
pub enum WsFrame {
    /// A text frame; `None` where its text is not a protocol message.
    Text(Option<ClientMessage>),
    /// The client closes the websocket.
    Close,
    /// Any frame that is not text (binary, ping, pong, continuation).
    Unsupported,
    /// The websocket layer reported a protocol error.
    ProtocolError,
}

/// The lifecycle events of which the subscription handler is told.
#[derive(Debug, Clone, Copy, PartialEq, Eq, Structural)]
pub enum Lifecycle {
    OnConnection,
    OnOperation,
    OnOperationComplete,
    OnDisconnect,
}

/// What the connection must do, in order.
#[derive(Debug, Clone, PartialEq, Eq)]
pub enum WsAction {
    /// Send this text to the client.
    Text(String),
    /// Tell the subscription handler of this lifecycle event. For
    /// `OnOperation` the handler gets the context of the operation that the
    /// following `Spawn` starts.
    Notify(Lifecycle),
    /// Stop the connection.
    Stop,
    /// Start the periodic keep-alive tick (`keep_alive_tick`), every
    /// `KEEP_ALIVE_INTERVAL_SECS` seconds.
    StartKeepAlive,
    /// Start executing the operation of the current start message, under this
    /// id, as the operation numbered by the second field. Its results come
    /// back through `operation_result`, `operation_finished` and
    /// `operation_failed` with that id and number.
    Spawn(String, u64),
    /// Cancel the running operation with this id and number.
    Cancel(String, u64),
}

/// The mathematical value of an action.
pub enum ActionView {
    Text(Seq<char>),
    Notify(Lifecycle),
    Stop,
    StartKeepAlive,
    Spawn(Seq<char>, u64),
    Cancel(Seq<char>, u64),
}

impl View for WsAction {
    type V = ActionView;

    open spec fn view(&self) -> ActionView {
        match self {
            WsAction::Text(s) => ActionView::Text(s@),
            WsAction::Notify(e) => ActionView::Notify(*e),
            WsAction::Stop => ActionView::Stop,
            WsAction::StartKeepAlive => ActionView::StartKeepAlive,
            WsAction::Spawn(id, op) => ActionView::Spawn(id@, *op),
            WsAction::Cancel(id, op) => ActionView::Cancel(id@, *op),
        }
    }
}

/// The values of a list of actions.
pub open spec fn actions_view(v: Seq<WsAction>) -> Seq<ActionView> {
    v.map_values(|a: WsAction| a@)
}

/// The state of a connection: whether it was initialized, the registered
/// operations as pairs of id and operation number, those of them whose
/// results still flow, and the number the next operation gets. An operation
/// that ended by itself stays registered under its id until a stop for that
/// id.
pub struct SessionView {
    pub has_started: bool,
    pub running: Set<(Seq<char>, u64)>,
    pub live: Set<(Seq<char>, u64)>,
    pub next_op: u64,
}

/// Whether an operation is registered under this id.
pub open spec fn runs(s: SessionView, id: Seq<char>) -> bool {
    exists|op: u64| #[trigger] s.running.contains((id, op))
}

/// The number of the operation registered under this id.
pub open spec fn op_of(s: SessionView, id: Seq<char>) -> u64 {
    choose|op: u64| #[trigger] s.running.contains((id, op))
}

/// The operations but the one with this id.
pub open spec fn without_id(r: Set<(Seq<char>, u64)>, id: Seq<char>) -> Set<(Seq<char>, u64)> {
    Set::new(|p: (Seq<char>, u64)| r.contains(p) && p.0 != id)
}

/// What holds of every connection: an id is registered as one operation at
/// most, operation numbers are below the next one, the operations whose
/// results flow are registered, and operations exist only on initialized
/// connections.
pub open spec fn session_inv(s: SessionView) -> bool {
    &&& forall|p: (Seq<char>, u64), q: (Seq<char>, u64)|
        #![trigger s.running.contains(p), s.running.contains(q)]
        s.running.contains(p) && s.running.contains(q) && p.0 == q.0 ==> p.1 == q.1
    &&& forall|p: (Seq<char>, u64)| #[trigger] s.running.contains(p) ==> p.1 < s.next_op
    &&& forall|p: (Seq<char>, u64)| #[trigger] s.live.contains(p) ==> s.running.contains(p)
    &&& !s.has_started ==> s.running == Set::<(Seq<char>, u64)>::empty()
}

/// The id of the operation a client message is about; "1" where it has none.
pub open spec fn request_id(m: ClientMessage) -> Seq<char> {
    match m.id {
        Some(id) => id@,
        None => "1"@,
    }
}

/// Whether a frame is a connection-init message, whose handling depends on
/// the subscription handler's verdict.
pub open spec fn is_connection_init(f: WsFrame) -> bool {
    f matches WsFrame::Text(Some(m)) && m.kind == GraphQLOverWebSocketMessage::ConnectionInit
}

/// A start message that the connection acts on carries a query.
pub open spec fn start_is_complete(s: SessionView, f: WsFrame) -> bool {
    match f {
        WsFrame::Text(Some(m)) => (m.kind == GraphQLOverWebSocketMessage::Start && s.has_started)
            ==> m.has_query,
        _ => true,
    }
}

/// Whether a start message for this id starts an operation: the connection is
/// initialized, no operation is registered under the id, and operation
/// numbers are left.
pub open spec fn starts_operation(s: SessionView, id: Seq<char>) -> bool {
    s.has_started && !runs(s, id) && s.next_op < u64::MAX
}

/// The connection after a frame; `accepted` is the handler's verdict on a
/// connection-init message (true where there is no handler).
pub open spec fn next_session(s: SessionView, f: WsFrame, accepted: bool) -> SessionView {
    match f {
        WsFrame::Text(Some(m)) => {
            let id = request_id(m);
            if m.kind == GraphQLOverWebSocketMessage::ConnectionInit {
                SessionView { has_started: s.has_started || accepted, ..s }
            } else if m.kind == GraphQLOverWebSocketMessage::Start && starts_operation(s, id) {
                SessionView {
                    running: s.running.insert((id, s.next_op)),
                    live: s.live.insert((id, s.next_op)),
                    next_op: (s.next_op + 1) as u64,
                    ..s
                }
            } else if m.kind == GraphQLOverWebSocketMessage::Stop && s.has_started {
                SessionView {
                    running: without_id(s.running, id),
                    live: without_id(s.live, id),
                    ..s
                }
            } else {
                s
            }
        },
        _ => s,
    }
}

/// The actions that end a connection: tell the handler, then stop.
pub open spec fn disconnect_actions() -> Seq<ActionView> {
    seq![ActionView::Notify(Lifecycle::OnDisconnect), ActionView::Stop]
}

/// What the connection does in answer to a frame.
pub open spec fn session_actions(s: SessionView, f: WsFrame, accepted: bool) -> Seq<ActionView> {
    match f {
        WsFrame::Text(Some(m)) => {
            let id = request_id(m);
            if m.kind == GraphQLOverWebSocketMessage::ConnectionInit {
                if accepted {
                    seq![
                        ActionView::Text(spec_bare_message(GraphQLOverWebSocketMessage::ConnectionAck)),
                        ActionView::Text(spec_bare_message(GraphQLOverWebSocketMessage::ConnectionKeepAlive)),
                        ActionView::StartKeepAlive,
                    ]
                } else {
                    seq![ActionView::Text(spec_bare_message(GraphQLOverWebSocketMessage::ConnectionError))]
                        + disconnect_actions()
                }
            } else if m.kind == GraphQLOverWebSocketMessage::Start && s.has_started {
                if starts_operation(s, id) {
                    seq![ActionView::Notify(Lifecycle::OnOperation), ActionView::Spawn(id, s.next_op)]
                } else {
                    seq![]
                }
            } else if m.kind == GraphQLOverWebSocketMessage::Stop && s.has_started {
                if runs(s, id) {
                    seq![
                        ActionView::Notify(Lifecycle::OnOperationComplete),
                        ActionView::Cancel(id, op_of(s, id)),
                        ActionView::Text(spec_complete_message(id)),
                    ]
                } else {
                    seq![]
                }
            } else if m.kind == GraphQLOverWebSocketMessage::ConnectionTerminate {
                disconnect_actions()
            } else {
                seq![]
            }
        },
        WsFrame::Text(None) => seq![],
        _ => disconnect_actions(),
    }
}

/// What a keep-alive tick does: send one keep-alive message.
pub open spec fn tick_actions() -> Seq<ActionView> {
    seq![ActionView::Text(spec_bare_message(GraphQLOverWebSocketMessage::ConnectionKeepAlive))]
}

/// What one result of the operation `(id, op)` does: it is sent while that
/// operation's results flow, and dropped once it was stopped or ended.
pub open spec fn result_actions(s: SessionView, id: Seq<char>, op: u64, payload: Seq<char>) -> Seq<ActionView> {
    if s.live.contains((id, op)) {
        seq![ActionView::Text(spec_data_message(id, payload))]
    } else {
        seq![]
    }
}

/// The connection after the operation `(id, op)` ended or failed: its
/// results no longer flow, and it stays registered under its id.
pub open spec fn ended_session(s: SessionView, id: Seq<char>, op: u64) -> SessionView {
    SessionView { live: s.live.remove((id, op)), ..s }
}

/// What the end of the results of an operation does, while they flow: tell
/// the handler the operation is complete, then tell the client.
pub open spec fn finished_actions(s: SessionView, id: Seq<char>, op: u64) -> Seq<ActionView> {
    if s.live.contains((id, op)) {
        seq![
            ActionView::Notify(Lifecycle::OnOperationComplete),
            ActionView::Text(spec_complete_message(id)),
        ]
    } else {
        seq![]
    }
}

/// What a failed subscription of an operation does, while its results flow:
/// send the error, complete the operation (telling the handler first), and
/// end the connection.
pub open spec fn failed_actions(s: SessionView, id: Seq<char>, op: u64, payload: Seq<char>) -> Seq<ActionView> {
    if s.live.contains((id, op)) {
        seq![ActionView::Text(spec_error_message(id, payload))] + finished_actions(s, id, op)
            + disconnect_actions()
    } else {
        seq![]
    }
}

/// The pairs of id and operation number held in a list.
pub open spec fn pairs_of(v: Seq<(String, u64, bool)>) -> Set<(Seq<char>, u64)> {
    Set::new(
        |p: (Seq<char>, u64)|
            exists|i: int| 0 <= i < v.len() && #[trigger] v[i].0@ == p.0 && v[i].1 == p.1,
    )
}

/// The pairs of id and operation number held in a list whose entry is not
/// marked as ended.
pub open spec fn live_of(v: Seq<(String, u64, bool)>) -> Set<(Seq<char>, u64)> {
    Set::new(
        |p: (Seq<char>, u64)|
            exists|i: int| 0 <= i < v.len() && #[trigger] v[i].0@ == p.0 && v[i].1 == p.1 && !v[i].2,
    )
}

/// The server side of one GraphQL over WebSocket connection.
pub struct SessionState {
    has_started: bool,
    running: Vec<(String, u64, bool)>,
    next_op: u64,
}

impl View for SessionState {
    type V = SessionView;

    closed spec fn view(&self) -> SessionView {
        SessionView {
            has_started: self.has_started,
            running: pairs_of(self.running@),
            live: live_of(self.running@),
            next_op: self.next_op,
        }
    }
}

impl SessionState {
    /// No id is held twice, every operation number is below the next one,
    /// and only an initialized connection holds operations.
    #[verifier::type_invariant]
    spec fn wf(&self) -> bool {
        &&& forall|i: int, j: int|
            0 <= i < j < self.running@.len() ==> #[trigger] self.running@[i].0@
                != #[trigger] self.running@[j].0@
        &&& forall|i: int| 0 <= i < self.running@.len() ==> #[trigger] self.running@[i].1 < self.next_op
        &&& !self.has_started ==> self.running@.len() == 0
    }

    /// A well-formed connection meets the invariant of every connection.
    proof fn lemma_wf_inv(&self)
        requires
            self.wf(),
        ensures
            session_inv(self@),
    {
        let v = self.running@;
        assert forall|p: (Seq<char>, u64), q: (Seq<char>, u64)|
            self@.running.contains(p) && self@.running.contains(q) && p.0 == q.0 implies p.1
            == q.1 by {
            let i = choose|i: int| 0 <= i < v.len() && #[trigger] v[i].0@ == p.0 && v[i].1 == p.1;
            let j = choose|j: int| 0 <= j < v.len() && #[trigger] v[j].0@ == q.0 && v[j].1 == q.1;
            if i < j {
                assert(v[i].0@ != v[j].0@);
            } else if j < i {
                assert(v[j].0@ != v[i].0@);
            }
        }
        assert forall|p: (Seq<char>, u64)| #[trigger] self@.running.contains(p) implies p.1
            < self@.next_op by {
            let i = choose|i: int| 0 <= i < v.len() && #[trigger] v[i].0@ == p.0 && v[i].1 == p.1;
        }
        assert forall|p: (Seq<char>, u64)| #[trigger] self@.live.contains(p) implies self@.running.contains(p) by {
            let i = choose|i: int| 0 <= i < v.len() && #[trigger] v[i].0@ == p.0 && v[i].1 == p.1 && !v[i].2;
        }
        if !self.has_started {
            assert(self@.running =~= Set::<(Seq<char>, u64)>::empty());
        }
    }

    /// A new connection: not initialized, with no operation.
    pub fn new() -> (r: SessionState)
        ensures
            session_inv(r@),
            r@ == (SessionView {
                has_started: false,
                running: Set::<(Seq<char>, u64)>::empty(),
                live: Set::<(Seq<char>, u64)>::empty(),
                next_op: 0,
            }),
    {
        let r = SessionState { has_started: false, running: Vec::new(), next_op: 0 };
        assert(pairs_of(r.running@) =~= Set::<(Seq<char>, u64)>::empty());
        assert(live_of(r.running@) =~= Set::<(Seq<char>, u64)>::empty());
        proof {
            use_type_invariant(&r);
            r.lemma_wf_inv();
        }
        r
    }

    /// Whether the connection was initialized.
    pub fn has_started(&self) -> (r: bool)
        ensures
            r == self@.has_started,
    {
        self.has_started
    }

    /// The index of the operation registered under this id, if any.
    fn position(&self, id: &str) -> (r: Option<usize>)
        requires
            self.wf(),
        ensures
            match r {
                Some(i) => i < self.running@.len() && self.running@[i as int].0@ == id@,
                None => !runs(self@, id@),
            },
    {
        let target: String = id.to_owned();
        let n = self.running.len();
        let mut i: usize = 0;
        while i < n
            invariant
                n == self.running@.len(),
                i <= n,
                target@ == id@,
                forall|k: int| 0 <= k < i ==> self.running@[k].0@ != id@,
            decreases n - i,
        {
            if self.running[i].0 == target {
                return Some(i);
            }
            i = i + 1;
        }
        assert forall|op: u64| !#[trigger] self@.running.contains((id@, op)) by {
            if self@.running.contains((id@, op)) {
                let k = choose|k: int|
                    0 <= k < self.running@.len() && #[trigger] self.running@[k].0@ == id@
                        && self.running@[k].1 == op;
            }
        }
        None
    }

    /// Whether an operation is registered under this id.
    pub fn is_running(&self, id: &str) -> (r: bool)
        ensures
            r == runs(self@, id@),
    {
        proof {
            use_type_invariant(&*self);
        }
        match self.position(id) {
            Some(i) => {
                assert(self@.running.contains(
                    (self.running@[i as int].0@, self.running@[i as int].1),
                ));
                true
            },
            None => false,
        }
    }

    /// The index of the operation `(id, op)`, if its results still flow.
    fn live_position(&self, id: &str, op: u64) -> (r: Option<usize>)
        requires
            self.wf(),
        ensures
            r is Some <==> self@.live.contains((id@, op)),
            r matches Some(i) ==> i < self.running@.len() && self.running@[i as int].0@ == id@
                && self.running@[i as int].1 == op && !self.running@[i as int].2,
    {
        match self.position(id) {
            Some(i) => {
                if self.running[i].1 == op && !self.running[i].2 {
                    assert(self@.live.contains((id@, op)));
                    Some(i)
                } else {
                    proof {
                        if self@.live.contains((id@, op)) {
                            let v = self.running@;
                            let k = choose|k: int|
                                0 <= k < v.len() && #[trigger] v[k].0@ == id@ && v[k].1 == op
                                    && !v[k].2;
                            if k < i {
                                assert(v[k].0@ != v[i as int].0@);
                            } else if i < k {
                                assert(v[i as int].0@ != v[k].0@);
                            }
                        }
                    }
                    None
                }
            },
            None => {
                proof {
                    self.lemma_wf_inv();
                    if self@.live.contains((id@, op)) {
                        assert(self@.running.contains((id@, op)));
                    }
                }
                None
            },
        }
    }

    /// Register a new operation, with its results flowing.
    fn insert_running(&mut self, id: String, op: u64)
        requires
            old(self).wf(),
            old(self).has_started,
            !runs(old(self)@, id@),
            op < old(self).next_op,
        ensures
            final(self).wf(),
            final(self)@ == (SessionView {
                running: old(self)@.running.insert((id@, op)),
                live: old(self)@.live.insert((id@, op)),
                ..old(self)@
            }),
    {
        let ghost old_running = self.running@;
        let ghost x = (id@, op);
        let mut v: Vec<(String, u64, bool)> = Vec::new();
        std::mem::swap(&mut v, &mut self.running);
        assert(v@ == old_running);
        v.push((id, op, false));
        assert(forall|k: int| 0 <= k < old_running.len() ==> #[trigger] v@[k] == old_running[k]);
        assert forall|i: int, j: int|
            0 <= i < j < v@.len() implies #[trigger] v@[i].0@
                != #[trigger] v@[j].0@ by {
            if j == old_running.len() {
                assert(old_running[i] == v@[i]);
                assert(v@[j].0@ == x.0);
                assert(pairs_of(old_running).contains((old_running[i].0@, old_running[i].1)));
                if old_running[i].0@ == x.0 {
                    assert(old(self)@.running.contains((x.0, old_running[i].1)));
                    assert(runs(old(self)@, x.0));
                }
            } else {
                assert(old_running[i] == v@[i]);
                assert(old_running[j] == v@[j]);
                assert(old(self).running@[i].0@ != old(self).running@[j].0@);
            }
        }
        assert forall|i: int| 0 <= i < v@.len() implies #[trigger] v@[i].1
            < self.next_op by {
            if i < old_running.len() {
                assert(old_running[i] == v@[i]);
            }
        }
        assert forall|y: (Seq<char>, u64)| #[trigger] pairs_of(v@).contains(y)
            == pairs_of(old_running).insert(x).contains(y) by {
            if pairs_of(v@).contains(y) {
                let i = choose|i: int|
                    0 <= i < v@.len() && #[trigger] v@[i].0@ == y.0
                        && v@[i].1 == y.1;
                if i < old_running.len() {
                    assert(old_running[i] == v@[i]);
                }
            }
            if pairs_of(old_running).contains(y) {
                let i = choose|i: int|
                    0 <= i < old_running.len() && #[trigger] old_running[i].0@ == y.0
                        && old_running[i].1 == y.1;
                assert(old_running[i] == v@[i]);
            }
            if y == x {
                assert(v@[old_running.len() as int].0@ == x.0);
            }
        }
        assert forall|y: (Seq<char>, u64)| #[trigger] live_of(v@).contains(y)
            == live_of(old_running).insert(x).contains(y) by {
            if live_of(v@).contains(y) {
                let i = choose|i: int|
                    0 <= i < v@.len() && #[trigger] v@[i].0@ == y.0
                        && v@[i].1 == y.1 && !v@[i].2;
                if i < old_running.len() {
                    assert(old_running[i] == v@[i]);
                }
            }
            if live_of(old_running).contains(y) {
                let i = choose|i: int|
                    0 <= i < old_running.len() && #[trigger] old_running[i].0@ == y.0
                        && old_running[i].1 == y.1 && !old_running[i].2;
                assert(old_running[i] == v@[i]);
            }
            if y == x {
                assert(v@[old_running.len() as int].0@ == x.0);
            }
        }
        assert(pairs_of(v@) =~= pairs_of(old_running).insert(x));
        assert(live_of(v@) =~= live_of(old_running).insert(x));
        self.running = v;
    }

    /// Remove the operation at index `i`.
    fn remove_running(&mut self, i: usize)
        requires
            old(self).wf(),
            i < old(self).running@.len(),
        ensures
            final(self).wf(),
            final(self)@ == (SessionView {
                running: without_id(old(self)@.running, old(self).running@[i as int].0@),
                live: without_id(old(self)@.live, old(self).running@[i as int].0@),
                ..old(self)@
            }),
    {
        let ghost old_running = self.running@;
        let ghost x = self.running@[i as int].0@;
        let mut v: Vec<(String, u64, bool)> = Vec::new();
        std::mem::swap(&mut v, &mut self.running);
        let _removed = v.remove(i);
        assert forall|a: int, b: int|
            0 <= a < b < v@.len() implies #[trigger] v@[a].0@
                != #[trigger] v@[b].0@ by {
            let oa = if a < i { a } else { a + 1 };
            let ob = if b < i { b } else { b + 1 };
            assert(v@[a] == old_running[oa]);
            assert(v@[b] == old_running[ob]);
        }
        assert forall|a: int| 0 <= a < v@.len() implies #[trigger] v@[a].1
            < self.next_op by {
            let oa = if a < i { a } else { a + 1 };
            assert(v@[a] == old_running[oa]);
        }
        assert forall|y: (Seq<char>, u64)| #[trigger] pairs_of(v@).contains(y)
            == without_id(pairs_of(old_running), x).contains(y) by {
            if pairs_of(v@).contains(y) {
                let a = choose|a: int|
                    0 <= a < v@.len() && #[trigger] v@[a].0@ == y.0
                        && v@[a].1 == y.1;
                let oa = if a < i { a } else { a + 1 };
                assert(v@[a] == old_running[oa]);
                assert(old_running[i as int].0@ == x);
            }
            if without_id(pairs_of(old_running), x).contains(y) {
                let a = choose|a: int|
                    0 <= a < old_running.len() && #[trigger] old_running[a].0@ == y.0
                        && old_running[a].1 == y.1;
                assert(a != i);
                let na = if a < i { a } else { a - 1 };
                assert(v@[na] == old_running[a]);
            }
        }
        assert forall|y: (Seq<char>, u64)| #[trigger] live_of(v@).contains(y)
            == without_id(live_of(old_running), x).contains(y) by {
            if live_of(v@).contains(y) {
                let a = choose|a: int|
                    0 <= a < v@.len() && #[trigger] v@[a].0@ == y.0
                        && v@[a].1 == y.1 && !v@[a].2;
                let oa = if a < i { a } else { a + 1 };
                assert(v@[a] == old_running[oa]);
                assert(old_running[i as int].0@ == x);
            }
            if without_id(live_of(old_running), x).contains(y) {
                let a = choose|a: int|
                    0 <= a < old_running.len() && #[trigger] old_running[a].0@ == y.0
                        && old_running[a].1 == y.1 && !old_running[a].2;
                assert(a != i);
                let na = if a < i { a } else { a - 1 };
                assert(v@[na] == old_running[a]);
            }
        }
        assert(pairs_of(v@) =~= without_id(pairs_of(old_running), x));
        assert(live_of(v@) =~= without_id(live_of(old_running), x));
        self.running = v;
    }

    /// Mark the operation at index `i` as ended: it stays registered, its
    /// results no longer flow.
    fn mark_ended(&mut self, i: usize)
        requires
            old(self).wf(),
            i < old(self).running@.len(),
        ensures
            final(self).wf(),
            final(self)@ == (SessionView {
                live: old(self)@.live.remove((old(self).running@[i as int].0@, old(self).running@[i as int].1)),
                ..old(self)@
            }),
    {
        let ghost old_running = self.running@;
        let ghost x = (self.running@[i as int].0@, self.running@[i as int].1);
        let id: String = self.running[i].0.clone();
        let op = self.running[i].1;
        let mut v: Vec<(String, u64, bool)> = Vec::new();
        std::mem::swap(&mut v, &mut self.running);
        v.set(i, (id, op, true));
        assert forall|a: int| 0 <= a < v@.len() && a != i implies #[trigger] v@[a]
            == old_running[a] by {}
        assert(v@[i as int].0@ == x.0);
        assert forall|a: int, b: int|
            0 <= a < b < v@.len() implies #[trigger] v@[a].0@
                != #[trigger] v@[b].0@ by {
            assert(v@[a].0@ == old_running[a].0@);
            assert(v@[b].0@ == old_running[b].0@);
        }
        assert forall|a: int| 0 <= a < v@.len() implies #[trigger] v@[a].1
            < self.next_op by {
            assert(v@[a].1 == old_running[a].1);
        }
        assert forall|y: (Seq<char>, u64)| #[trigger] pairs_of(v@).contains(y)
            == pairs_of(old_running).contains(y) by {
            if pairs_of(v@).contains(y) {
                let a = choose|a: int|
                    0 <= a < v@.len() && #[trigger] v@[a].0@ == y.0
                        && v@[a].1 == y.1;
                assert(v@[a].0@ == old_running[a].0@);
                assert(v@[a].1 == old_running[a].1);
            }
            if pairs_of(old_running).contains(y) {
                let a = choose|a: int|
                    0 <= a < old_running.len() && #[trigger] old_running[a].0@ == y.0
                        && old_running[a].1 == y.1;
                assert(v@[a].0@ == old_running[a].0@);
                assert(v@[a].1 == old_running[a].1);
            }
        }
        assert forall|y: (Seq<char>, u64)| #[trigger] live_of(v@).contains(y)
            == live_of(old_running).remove(x).contains(y) by {
            if live_of(v@).contains(y) {
                let a = choose|a: int|
                    0 <= a < v@.len() && #[trigger] v@[a].0@ == y.0
                        && v@[a].1 == y.1 && !v@[a].2;
                assert(a != i);
                assert(v@[a] == old_running[a]);
                if y == x {
                    if a < i {
                        assert(old_running[a].0@ != old_running[i as int].0@);
                    } else {
                        assert(old_running[i as int].0@ != old_running[a].0@);
                    }
                }
            }
            if live_of(old_running).remove(x).contains(y) {
                let a = choose|a: int|
                    0 <= a < old_running.len() && #[trigger] old_running[a].0@ == y.0
                        && old_running[a].1 == y.1 && !old_running[a].2;
                assert(a != i);
                assert(v@[a] == old_running[a]);
            }
        }
        assert(pairs_of(v@) =~= pairs_of(old_running));
        assert(live_of(v@) =~= live_of(old_running).remove(x));
        self.running = v;
    }

    /// Act on one frame received from the client. `connection_accepted` is
    /// the subscription handler's verdict on a connection-init message, as
    /// `connection_verdict` gives it (true for every other frame).
    pub fn handle(&mut self, frame: &WsFrame, connection_accepted: bool) -> (r: Vec<WsAction>)
        requires
            start_is_complete(old(self)@, *frame),
            !connection_accepted ==> is_connection_init(*frame),
        ensures
            session_inv(final(self)@),
            final(self)@ == next_session(old(self)@, *frame, connection_accepted),
            actions_view(r@) == session_actions(old(self)@, *frame, connection_accepted),
    {
        proof {
            use_type_invariant(&*self);
        }
        let mut actions: Vec<WsAction> = Vec::new();
        match frame {
            WsFrame::Text(None) => {},
            WsFrame::Text(Some(m)) => {
                let id: String = match &m.id {
                    Some(id) => id.clone(),
                    None => "1".to_owned(),
                };
                assert(id@ == request_id(*m));
                match m.kind {
                    GraphQLOverWebSocketMessage::ConnectionInit => {
                        if connection_accepted {
                            actions.push(WsAction::Text(gql_connection_ack()));
                            actions.push(WsAction::Text(gql_connection_ka()));
                            actions.push(WsAction::StartKeepAlive);
                            self.has_started = true;
                        } else {
                            actions.push(WsAction::Text(gql_connection_error()));
                            actions.push(WsAction::Notify(Lifecycle::OnDisconnect));
                            actions.push(WsAction::Stop);
                        }
                    },
                    GraphQLOverWebSocketMessage::Start => {
                        if self.has_started {
                            match self.position(id.as_str()) {
                                Some(i) => {
                                    assert(self@.running.contains(
                                        (self.running@[i as int].0@, self.running@[i as int].1),
                                    ));
                                },
                                None => {
                                    if self.next_op < u64::MAX {
                                        let op = self.next_op;
                                        self.next_op = op + 1;
                                        let spawned = id.clone();
                                        self.insert_running(id, op);
                                        actions.push(WsAction::Notify(Lifecycle::OnOperation));
                                        actions.push(WsAction::Spawn(spawned, op));
                                    }
                                },
                            }
                        }
                    },
                    GraphQLOverWebSocketMessage::Stop => {
                        if self.has_started {
                            match self.position(id.as_str()) {
                                Some(i) => {
                                    let op = self.running[i].1;
                                    proof {
                                        self.lemma_wf_inv();
                                        assert(self@.running.contains((id@, op)));
                                        assert(self@.running.contains((id@, op_of(self@, id@))));
                                    }
                                    self.remove_running(i);
                                    let complete = gql_complete(id.as_str());
                                    actions.push(WsAction::Notify(Lifecycle::OnOperationComplete));
                                    actions.push(WsAction::Cancel(id, op));
                                    actions.push(WsAction::Text(complete));
                                },
                                None => {
                                    proof {
                                        self.lemma_wf_inv();
                                        assert(without_id(self@.running, id@) =~= self@.running);
                                        assert(without_id(self@.live, id@) =~= self@.live);
                                    }
                                },
                            }
                        }
                    },
                    GraphQLOverWebSocketMessage::ConnectionTerminate => {
                        actions.push(WsAction::Notify(Lifecycle::OnDisconnect));
                        actions.push(WsAction::Stop);
                    },
                    _ => {},
                }
            },
            _ => {
                actions.push(WsAction::Notify(Lifecycle::OnDisconnect));
                actions.push(WsAction::Stop);
            },
        }
        assert(actions_view(actions@) =~= session_actions(old(self)@, *frame, connection_accepted));
        proof {
            use_type_invariant(&*self);
            self.lemma_wf_inv();
        }
        actions
    }

    /// One keep-alive tick: send a keep-alive message.
    pub fn keep_alive_tick(&self) -> (r: Vec<WsAction>)
        ensures
            actions_view(r@) == tick_actions(),
    {
        let mut actions: Vec<WsAction> = Vec::new();
        actions.push(WsAction::Text(gql_connection_ka()));
        assert(actions_view(actions@) =~= tick_actions());
        actions
    }

    /// One result of the operation `(request_id, op)`: sent in a data message
    /// (serialized, if that succeeded) while the operation's results flow,
    /// dropped once it was stopped or ended.
    pub fn operation_result(&self, request_id: &str, op: u64, serialized_response: Option<String>) -> (r: Vec<WsAction>)
        ensures
            self@.live.contains((request_id@, op)) ==> actions_view(r@) == seq![
                ActionView::Text(spec_data_message(
                    request_id@,
                    payload_or(opt_string_view(serialized_response), data_fallback()),
                )),
            ],
            !self@.live.contains((request_id@, op)) ==> r@.len() == 0,
            actions_view(r@) == result_actions(
                self@,
                request_id@,
                op,
                payload_or(opt_string_view(serialized_response), data_fallback()),
            ),
    {
        proof {
            use_type_invariant(&*self);
        }
        let mut actions: Vec<WsAction> = Vec::new();
        if self.live_position(request_id, op).is_some() {
            let payload: String = match serialized_response {
                Some(p) => p,
                None => "Error deserializing respone".to_owned(),
            };
            actions.push(WsAction::Text(gql_data(request_id, payload.as_str())));
        }
        assert(actions_view(actions@) =~= result_actions(
            self@,
            request_id@,
            op,
            payload_or(opt_string_view(serialized_response), data_fallback()),
        ));
        actions
    }

    /// The results of the operation `(request_id, op)` are exhausted: if they
    /// still flowed, they no longer do, the handler is told the operation is
    /// complete, and so is the client. The operation stays registered under
    /// its id until a stop for that id.
    pub fn operation_finished(&mut self, request_id: &str, op: u64) -> (r: Vec<WsAction>)
        ensures
            final(self)@.live == old(self)@.live.remove((request_id@, op)),
            final(self)@.running == old(self)@.running,
            final(self)@.has_started == old(self)@.has_started,
            final(self)@.next_op == old(self)@.next_op,
            old(self)@.live.contains((request_id@, op)) ==> actions_view(r@) == seq![
                ActionView::Notify(Lifecycle::OnOperationComplete),
                ActionView::Text(spec_complete_message(request_id@)),
            ],
            !old(self)@.live.contains((request_id@, op)) ==> r@.len() == 0,
            session_inv(final(self)@),
            final(self)@ == ended_session(old(self)@, request_id@, op),
            actions_view(r@) == finished_actions(old(self)@, request_id@, op),
    {
        proof {
            use_type_invariant(&*self);
        }
        let mut actions: Vec<WsAction> = Vec::new();
        match self.live_position(request_id, op) {
            Some(i) => {
                self.mark_ended(i);
                actions.push(WsAction::Notify(Lifecycle::OnOperationComplete));
                actions.push(WsAction::Text(gql_complete(request_id)));
            },
            None => {
                assert(self@.live.remove((request_id@, op)) =~= self@.live);
            },
        }
        assert(actions_view(actions@) =~= finished_actions(old(self)@, request_id@, op));
        proof {
            use_type_invariant(&*self);
            self.lemma_wf_inv();
        }
        actions
    }

    /// Subscribing to the operation `(request_id, op)` failed: if its results
    /// flowed, they no longer do, the error is sent (serialized, if that
    /// succeeded), the operation is completed, and the connection ends.
    pub fn operation_failed(&mut self, request_id: &str, op: u64, serialized_error: Option<String>) -> (r: Vec<WsAction>)
        ensures
            final(self)@.live == old(self)@.live.remove((request_id@, op)),
            final(self)@.running == old(self)@.running,
            final(self)@.has_started == old(self)@.has_started,
            final(self)@.next_op == old(self)@.next_op,
            old(self)@.live.contains((request_id@, op)) ==> actions_view(r@) == seq![
                ActionView::Text(spec_error_message(
                    request_id@,
                    payload_or(opt_string_view(serialized_error), error_fallback()),
                )),
                ActionView::Notify(Lifecycle::OnOperationComplete),
                ActionView::Text(spec_complete_message(request_id@)),
                ActionView::Notify(Lifecycle::OnDisconnect),
                ActionView::Stop,
            ],
            !old(self)@.live.contains((request_id@, op)) ==> r@.len() == 0,
            session_inv(final(self)@),
            final(self)@ == ended_session(old(self)@, request_id@, op),
            actions_view(r@) == failed_actions(
                old(self)@,
                request_id@,
                op,
                payload_or(opt_string_view(serialized_error), error_fallback()),
            ),
    {
        proof {
            use_type_invariant(&*self);
        }
        let mut actions: Vec<WsAction> = Vec::new();
        match self.live_position(request_id, op) {
            Some(i) => {
                self.mark_ended(i);
                actions.push(WsAction::Text(gql_error(request_id, serialized_error)));
                actions.push(WsAction::Notify(Lifecycle::OnOperationComplete));
                actions.push(WsAction::Text(gql_complete(request_id)));
                actions.push(WsAction::Notify(Lifecycle::OnDisconnect));
                actions.push(WsAction::Stop);
            },
            None => {
                assert(self@.live.remove((request_id@, op)) =~= self@.live);
            },
        }
        assert(actions_view(actions@) =~= failed_actions(
            old(self)@,
            request_id@,
            op,
            payload_or(opt_string_view(serialized_error), error_fallback()),
        ));
        proof {
            use_type_invariant(&*self);
            self.lemma_wf_inv();
        }
        actions
    }
}

/// The text of a decoded text frame.
pub open spec fn message_text(f: WsFrame) -> String {
    match f {
        WsFrame::Text(Some(m)) => m.text,
        _ => arbitrary(),
    }
}

/// Ask the subscription handler for its verdict on a connection-init message:
/// where the frame is one and there is a handler, it is called once, with the
/// message's text and the connection's context, which it may change;
/// otherwise nothing is called, the context is left as it was, and the
/// connection is accepted.
pub fn connection_verdict<Context, E, H>(frame: &WsFrame, handler: Option<&H>, context: &mut Context) -> (accepted: bool)
    where
        Context: Send + Sync,
        H: SubscriptionStateHandler<Context, E>,
    ensures
        (!is_connection_init(*frame) || handler is None) ==> accepted && *final(context) == *old(context),
        (is_connection_init(*frame) && handler is Some) ==> exists|c: &mut Context, r: Result<(), E>|
            call_ensures(
                H::handle,
                (handler.unwrap(), SubscriptionState::OnConnection(Some(message_text(*frame)), c)),
                r,
            ) && *c == *old(context) && *final(c) == *final(context) && accepted == r is Ok,
{
    match frame {
        WsFrame::Text(Some(m)) => {
            if m.kind == GraphQLOverWebSocketMessage::ConnectionInit {
                match handler {
                    Some(h) => {
                        let state = SubscriptionState::OnConnection(Some(m.text.clone()), context);
                        let ghost st = state;
                        let handle = H::handle;
                        let r = handle(h, state);
                        assert(call_ensures(H::handle, (h, st), r));
                        r.is_ok()
                    },
                    None => true,
                }
            } else {
                true
            }
        },
        _ => true,
    }
}

/// Tell the subscription handler of an event that an action names: the
/// operation's context for `OnOperation` (which the handler may change), the
/// connection's context for the others. Where there is no handler nothing is
/// called and the context is left as it was. `OnConnection` is asked by
/// `connection_verdict`, never by an action.
pub fn notify_handler<Context, E, H>(event: Lifecycle, handler: Option<&H>, context: &mut Context) -> (r: Result<(), E>)
    where
        Context: Send + Sync,
        H: SubscriptionStateHandler<Context, E>,
    requires
        event != Lifecycle::OnConnection,
    ensures
        handler is None ==> r is Ok && *final(context) == *old(context),
        event != Lifecycle::OnOperation ==> *final(context) == *old(context),
        (event == Lifecycle::OnOperation && handler is Some) ==> exists|c: &mut Context|
            call_ensures(H::handle, (handler.unwrap(), SubscriptionState::OnOperation(c)), r)
                && *c == *old(context) && *final(c) == *final(context),
        (event == Lifecycle::OnOperationComplete && handler is Some) ==> call_ensures(
            H::handle,
            (handler.unwrap(), SubscriptionState::OnOperationComplete(&*old(context))),
            r,
        ),
        (event == Lifecycle::OnDisconnect && handler is Some) ==> call_ensures(
            H::handle,
            (handler.unwrap(), SubscriptionState::OnDisconnect(&*old(context))),
            r,
        ),
{
    match handler {
        Some(h) => {
            let handle = H::handle;
            match event {
                Lifecycle::OnOperation => {
                    let state = SubscriptionState::OnOperation(context);
                    let ghost st = state;
                    let r = handle(h, state);
                    assert(call_ensures(H::handle, (h, st), r));
                    r
                },
                Lifecycle::OnOperationComplete => {
                    let state = SubscriptionState::OnOperationComplete(&*context);
                    let ghost st = state;
                    let r = handle(h, state);
                    assert(call_ensures(H::handle, (h, st), r));
                    r
                },
                _ => {
                    let state = SubscriptionState::OnDisconnect(&*context);
                    let ghost st = state;
                    let r = handle(h, state);
                    assert(call_ensures(H::handle, (h, st), r));
                    r
                },
            }
        },
        None => Ok(()),
    }
}

} // verus!
