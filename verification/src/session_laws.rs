use vstd::prelude::*;

use crate::messages::{
    spec_bare_message, spec_complete_message, spec_data_message, spec_error_message,
};
use crate::session::{
    disconnect_actions, ended_session, op_of, failed_actions, finished_actions, next_session,
    request_id, result_actions, runs, session_actions, session_inv, starts_operation,
    tick_actions, without_id, ActionView, ClientMessage, Lifecycle, SessionView, WsFrame,
};
use crate::ws_util::{
    EmptySubscriptionHandler, GraphQLOverWebSocketMessage, SubscriptionState,
    SubscriptionStateHandler,
};

verus! {

/// Every stop in a list of actions comes right after the handler is told
/// that the connection ends.
pub open spec fn stop_announced(a: Seq<ActionView>) -> bool {
    forall|i: int|
        0 <= i < a.len() && #[trigger] a[i] is Stop ==> i >= 1 && a[i - 1]
            == ActionView::Notify(Lifecycle::OnDisconnect)
}

/// Where an id does not run, removing it changes nothing.
proof fn lemma_without_absent_id(r: Set<(Seq<char>, u64)>, id: Seq<char>)
    requires
        forall|op: u64| !#[trigger] r.contains((id, op)),
    ensures
        without_id(r, id) == r,
{
    assert forall|p: (Seq<char>, u64)| r.contains(p) implies p.0 != id by {
        if p.0 == id {
            assert(p == (id, p.1));
        }
    }
    assert(without_id(r, id) =~= r);
}

/// Every frame keeps the invariant of a connection; once initialized, a
/// connection stays so, and operation numbers never go back.
pub proof fn law_frames_keep_invariant(s: SessionView, f: WsFrame, accepted: bool)
    requires
        session_inv(s),
    ensures
        session_inv(next_session(s, f, accepted)),
        s.has_started ==> next_session(s, f, accepted).has_started,
        s.next_op <= next_session(s, f, accepted).next_op,
{
    let n = next_session(s, f, accepted);
    if let WsFrame::Text(Some(m)) = f {
        let id = request_id(m);
        if m.kind == GraphQLOverWebSocketMessage::Start && starts_operation(s, id) {
            assert forall|p: (Seq<char>, u64), q: (Seq<char>, u64)|
                n.running.contains(p) && n.running.contains(q) && p.0 == q.0 implies p.1 == q.1 by {
                if p.0 == id && p != (id, s.next_op) {
                    assert(s.running.contains((id, p.1)));
                }
                if q.0 == id && q != (id, s.next_op) {
                    assert(s.running.contains((id, q.1)));
                }
            }
        }
        if !n.has_started {
            assert(n.running =~= s.running);
        }
        if m.kind == GraphQLOverWebSocketMessage::Stop && s.has_started {
            assert forall|p: (Seq<char>, u64)| #[trigger] n.live.contains(p) implies n.running.contains(p) by {
                assert(s.live.contains(p));
            }
        }
    }
}

/// The end of an operation keeps the invariant of a connection; the
/// operation stays registered.
pub proof fn law_operation_end_keeps_invariant(s: SessionView, id: Seq<char>, op: u64)
    requires
        session_inv(s),
    ensures
        session_inv(ended_session(s, id, op)),
        ended_session(s, id, op).has_started == s.has_started,
        ended_session(s, id, op).next_op == s.next_op,
        ended_session(s, id, op).running == s.running,
{
}

/// Before the connection is initialized, start and stop messages are
/// ignored: no event, no action, no change.
pub proof fn law_ignored_before_init(s: SessionView, m: ClientMessage, accepted: bool)
    requires
        !s.has_started,
        m.kind == GraphQLOverWebSocketMessage::Start || m.kind == GraphQLOverWebSocketMessage::Stop,
    ensures
        next_session(s, WsFrame::Text(Some(m)), accepted) == s,
        session_actions(s, WsFrame::Text(Some(m)), accepted) == Seq::<ActionView>::empty(),
{
}

/// A connection-init message the handler accepts is answered with the
/// acknowledgement, then a keep-alive message, then the keep-alive tick
/// starts, and the connection is initialized; one it rejects is answered
/// with a connection error, then the handler is told the connection ends,
/// and it stops, uninitialized if it was.
pub proof fn law_connection_init(s: SessionView, m: ClientMessage, accepted: bool)
    requires
        m.kind == GraphQLOverWebSocketMessage::ConnectionInit,
    ensures
        accepted ==> next_session(s, WsFrame::Text(Some(m)), accepted).has_started,
        accepted ==> session_actions(s, WsFrame::Text(Some(m)), accepted) == seq![
            ActionView::Text(spec_bare_message(GraphQLOverWebSocketMessage::ConnectionAck)),
            ActionView::Text(spec_bare_message(GraphQLOverWebSocketMessage::ConnectionKeepAlive)),
            ActionView::StartKeepAlive,
        ],
        !accepted ==> next_session(s, WsFrame::Text(Some(m)), accepted) == s,
        !accepted ==> session_actions(s, WsFrame::Text(Some(m)), accepted) == seq![
            ActionView::Text(spec_bare_message(GraphQLOverWebSocketMessage::ConnectionError)),
            ActionView::Notify(Lifecycle::OnDisconnect),
            ActionView::Stop,
        ],
{
    assert(seq![ActionView::Text(spec_bare_message(GraphQLOverWebSocketMessage::ConnectionError))]
        + disconnect_actions() =~= seq![
        ActionView::Text(spec_bare_message(GraphQLOverWebSocketMessage::ConnectionError)),
        ActionView::Notify(Lifecycle::OnDisconnect),
        ActionView::Stop,
    ]);
}

/// On an initialized connection, the handler is told that an operation
/// starts exactly when a start message starts one, right before it is
/// spawned; a start whose id already runs is ignored.
pub proof fn law_operation_event_only_when_starting(s: SessionView, m: ClientMessage)
    requires
        s.has_started,
        m.kind == GraphQLOverWebSocketMessage::Start,
    ensures
        starts_operation(s, request_id(m)) ==> session_actions(s, WsFrame::Text(Some(m)), true)
            == seq![
            ActionView::Notify(Lifecycle::OnOperation),
            ActionView::Spawn(request_id(m), s.next_op),
        ],
        starts_operation(s, request_id(m)) ==> next_session(
            s,
            WsFrame::Text(Some(m)),
            true,
        ).running.contains((request_id(m), s.next_op)),
        !starts_operation(s, request_id(m)) ==> session_actions(s, WsFrame::Text(Some(m)), true)
            == Seq::<ActionView>::empty(),
        !starts_operation(s, request_id(m)) ==> next_session(s, WsFrame::Text(Some(m)), true) == s,
        runs(s, request_id(m)) ==> !starts_operation(s, request_id(m)),
{
}

/// On an initialized connection, the handler is told that an operation is
/// complete on a stop message exactly when the stop removes an operation
/// registered under its id: then the operation is cancelled and the client
/// gets the complete message; a stop of an id under which nothing is
/// registered sends nothing and changes nothing.
pub proof fn law_complete_event_only_when_ending(s: SessionView, m: ClientMessage)
    requires
        session_inv(s),
        s.has_started,
        m.kind == GraphQLOverWebSocketMessage::Stop,
    ensures
        runs(s, request_id(m)) ==> session_actions(s, WsFrame::Text(Some(m)), true) == seq![
            ActionView::Notify(Lifecycle::OnOperationComplete),
            ActionView::Cancel(request_id(m), op_of(s, request_id(m))),
            ActionView::Text(spec_complete_message(request_id(m))),
        ],
        !runs(next_session(s, WsFrame::Text(Some(m)), true), request_id(m)),
        !runs(s, request_id(m)) ==> session_actions(s, WsFrame::Text(Some(m)), true)
            == Seq::<ActionView>::empty(),
        !runs(s, request_id(m)) ==> next_session(s, WsFrame::Text(Some(m)), true) == s,
{
    let id = request_id(m);
    if !runs(s, id) {
        lemma_without_absent_id(s.running, id);
        assert forall|op: u64| !#[trigger] s.live.contains((id, op)) by {
            if s.live.contains((id, op)) {
                assert(s.running.contains((id, op)));
            }
        }
        lemma_without_absent_id(s.live, id);
    }
}

/// Starting an operation under a new id and then stopping that id leaves the
/// running operations as they were.
pub proof fn law_start_then_stop_restores(s: SessionView, start: ClientMessage, stop: ClientMessage)
    requires
        session_inv(s),
        starts_operation(s, request_id(start)),
        start.kind == GraphQLOverWebSocketMessage::Start,
        stop.kind == GraphQLOverWebSocketMessage::Stop,
        request_id(start) == request_id(stop),
    ensures
        ({
            let after = next_session(
                next_session(s, WsFrame::Text(Some(start)), true),
                WsFrame::Text(Some(stop)),
                true,
            );
            after.running == s.running && after.live == s.live && after.has_started
                == s.has_started
        }),
{
    let id = request_id(start);
    lemma_without_absent_id(s.running, id);
    assert forall|op: u64| !#[trigger] s.live.contains((id, op)) by {
        if s.live.contains((id, op)) {
            assert(s.running.contains((id, op)));
        }
    }
    lemma_without_absent_id(s.live, id);
    assert(without_id(s.running.insert((id, s.next_op)), id) =~= without_id(s.running, id));
    assert(without_id(s.live.insert((id, s.next_op)), id) =~= without_id(s.live, id));
}

/// Every stop of the connection, whether on a frame or after a failed
/// subscription, comes right after the handler is told that the connection
/// ends; the keep-alive tick and the other outcomes of an operation never
/// stop it.
pub proof fn law_every_stop_is_announced(
    s: SessionView,
    f: WsFrame,
    accepted: bool,
    id: Seq<char>,
    op: u64,
    payload: Seq<char>,
)
    ensures
        stop_announced(session_actions(s, f, accepted)),
        stop_announced(tick_actions()),
        stop_announced(failed_actions(s, id, op, payload)),
        stop_announced(finished_actions(s, id, op)),
        stop_announced(result_actions(s, id, op, payload)),
{
    let a = session_actions(s, f, accepted);
    let e = failed_actions(s, id, op, payload);
    if s.live.contains((id, op)) {
        assert(e =~= seq![
            ActionView::Text(spec_error_message(id, payload)),
            ActionView::Notify(Lifecycle::OnOperationComplete),
            ActionView::Text(spec_complete_message(id)),
            ActionView::Notify(Lifecycle::OnDisconnect),
            ActionView::Stop,
        ]);
    }
    if let WsFrame::Text(Some(m)) = f {
        if m.kind == GraphQLOverWebSocketMessage::ConnectionInit && !accepted {
            assert(a =~= seq![
                ActionView::Text(spec_bare_message(GraphQLOverWebSocketMessage::ConnectionError)),
                ActionView::Notify(Lifecycle::OnDisconnect),
                ActionView::Stop,
            ]);
        }
    }
}

/// The end of an operation whose results flow, by itself or by a failed
/// subscription, tells the handler that it is complete right before the
/// client gets the complete message; its results no longer flow, and it
/// stays registered under its id, so a start with that id is ignored until a
/// stop for it.
pub proof fn law_operation_end_is_announced(
    s: SessionView,
    id: Seq<char>,
    op: u64,
    payload: Seq<char>,
    start: ClientMessage,
)
    requires
        session_inv(s),
        s.live.contains((id, op)),
        start.kind == GraphQLOverWebSocketMessage::Start,
        request_id(start) == id,
    ensures
        finished_actions(s, id, op) == seq![
            ActionView::Notify(Lifecycle::OnOperationComplete),
            ActionView::Text(spec_complete_message(id)),
        ],
        failed_actions(s, id, op, payload) == seq![
            ActionView::Text(spec_error_message(id, payload)),
            ActionView::Notify(Lifecycle::OnOperationComplete),
            ActionView::Text(spec_complete_message(id)),
            ActionView::Notify(Lifecycle::OnDisconnect),
            ActionView::Stop,
        ],
        !ended_session(s, id, op).live.contains((id, op)),
        runs(ended_session(s, id, op), id),
        next_session(ended_session(s, id, op), WsFrame::Text(Some(start)), true) == ended_session(s, id, op),
        session_actions(ended_session(s, id, op), WsFrame::Text(Some(start)), true)
            == Seq::<ActionView>::empty(),
{
    assert(s.running.contains((id, op)));
    assert(ended_session(s, id, op).running.contains((id, op)));
    assert(runs(ended_session(s, id, op), id));
    assert(failed_actions(s, id, op, payload) =~= seq![
        ActionView::Text(spec_error_message(id, payload)),
        ActionView::Notify(Lifecycle::OnOperationComplete),
        ActionView::Text(spec_complete_message(id)),
        ActionView::Notify(Lifecycle::OnDisconnect),
        ActionView::Stop,
    ]);
}

/// A stop message for a registered operation ends that operation for good:
/// its results no longer flow and its number is below the next one, so they
/// never flow again.
pub proof fn law_stop_ends_operation(s: SessionView, m: ClientMessage, op: u64)
    requires
        session_inv(s),
        s.has_started,
        m.kind == GraphQLOverWebSocketMessage::Stop,
        s.running.contains((request_id(m), op)),
    ensures
        !next_session(s, WsFrame::Text(Some(m)), true).running.contains((request_id(m), op)),
        !next_session(s, WsFrame::Text(Some(m)), true).live.contains((request_id(m), op)),
        op < next_session(s, WsFrame::Text(Some(m)), true).next_op,
{
}

/// Once an operation was stopped or ended, nothing more is sent for it: its
/// results, its end and its failure produce no action, and no frame and no
/// end of another operation makes its results flow again.
pub proof fn law_stopped_operation_stays_silent(
    s: SessionView,
    id: Seq<char>,
    op: u64,
    payload: Seq<char>,
    f: WsFrame,
    accepted: bool,
    other_id: Seq<char>,
    other_op: u64,
)
    requires
        session_inv(s),
        !s.live.contains((id, op)),
        op < s.next_op,
    ensures
        result_actions(s, id, op, payload) == Seq::<ActionView>::empty(),
        finished_actions(s, id, op) == Seq::<ActionView>::empty(),
        failed_actions(s, id, op, payload) == Seq::<ActionView>::empty(),
        !next_session(s, f, accepted).live.contains((id, op)),
        op < next_session(s, f, accepted).next_op,
        !ended_session(s, other_id, other_op).live.contains((id, op)),
        op < ended_session(s, other_id, other_op).next_op,
{
}

/// A close frame, a frame that is not text, a protocol error, and a
/// connection-terminate message each tell the handler the connection ends
/// and stop it, changing nothing else; a text frame that is not a protocol
/// message is ignored.
pub proof fn law_connection_end(s: SessionView, f: WsFrame)
    ensures
        (f is Close || f is Unsupported || f is ProtocolError) ==> session_actions(s, f, true)
            == disconnect_actions(),
        (f matches WsFrame::Text(Some(m)) && m.kind == GraphQLOverWebSocketMessage::ConnectionTerminate)
            ==> session_actions(s, f, true) == disconnect_actions(),
        (f matches WsFrame::Text(Some(m)) && m.kind == GraphQLOverWebSocketMessage::ConnectionTerminate)
            ==> next_session(s, f, true) == s,
        !(f matches WsFrame::Text(Some(_))) ==> next_session(s, f, true) == s,
        f == WsFrame::Text(None) ==> session_actions(s, f, true) == Seq::<ActionView>::empty(),
{
}

/// Every keep-alive tick sends exactly one keep-alive message, and nothing
/// else.
pub proof fn law_keep_alive_tick()
    ensures
        tick_actions() == seq![
            ActionView::Text(spec_bare_message(GraphQLOverWebSocketMessage::ConnectionKeepAlive)),
        ],
{
}

/// The empty handler accepts every connection, and leaves the context as it
/// was: with it, a connection-init is always answered by acknowledgement and
/// keep-alive (`law_connection_init`).
pub proof fn law_empty_handler_accepts<Context: Send + Sync>(
    h: &EmptySubscriptionHandler,
    text: Option<String>,
)
    ensures
        forall|c: &mut Context, r: Result<(), std::io::Error>|
            call_ensures(
                <EmptySubscriptionHandler as SubscriptionStateHandler<Context, std::io::Error>>::handle,
                (h, SubscriptionState::OnConnection(text, c)),
                r,
            ) ==> r is Ok && *final(c) == *c,
{
}

/// Ending one operation, by itself or by a failed subscription, takes exactly
/// that operation out of those whose results flow: every other operation
/// flows as it did, and the registered operations, the initialization and
/// the next operation number stay as they were.
pub proof fn law_end_affects_only_that_operation(
    s: SessionView,
    id: Seq<char>,
    op: u64,
    p: (Seq<char>, u64),
)
    ensures
        ended_session(s, id, op).live.contains(p) == (s.live.contains(p) && p != (id, op)),
        ended_session(s, id, op).live == s.live.remove((id, op)),
        ended_session(s, id, op).running == s.running,
        ended_session(s, id, op).has_started == s.has_started,
        ended_session(s, id, op).next_op == s.next_op,
{
}

/// While an operation's results flow, each of its results is sent to the
/// client as exactly one data message under its id, whatever other
/// operations run; once they no longer flow, a result sends nothing.
pub proof fn law_results_flow_while_live(s: SessionView, id: Seq<char>, op: u64, payload: Seq<char>)
    ensures
        s.live.contains((id, op)) ==> result_actions(s, id, op, payload) == seq![
            ActionView::Text(spec_data_message(id, payload)),
        ],
        !s.live.contains((id, op)) ==> result_actions(s, id, op, payload)
            == Seq::<ActionView>::empty(),
{
}

/// The operations of a connection run independently: the end of one
/// operation, by itself or by a failed subscription, leaves every other
/// operation whose results flow as it was, so its results are still sent and
/// its own end still tells the handler and completes it for the client.
pub proof fn law_operations_end_independently(
    s: SessionView,
    id: Seq<char>,
    op: u64,
    other_id: Seq<char>,
    other_op: u64,
    payload: Seq<char>,
)
    requires
        s.live.contains((other_id, other_op)),
        (other_id, other_op) != (id, op),
    ensures
        ended_session(s, id, op).live.contains((other_id, other_op)),
        result_actions(ended_session(s, id, op), other_id, other_op, payload) == seq![
            ActionView::Text(spec_data_message(other_id, payload)),
        ],
        finished_actions(ended_session(s, id, op), other_id, other_op) == seq![
            ActionView::Notify(Lifecycle::OnOperationComplete),
            ActionView::Text(spec_complete_message(other_id)),
        ],
{
}

/// Starting an operation under another id does not change whether the
/// results of an operation flow: they are sent after the start exactly as
/// before it.
pub proof fn law_start_keeps_other_results(
    s: SessionView,
    m: ClientMessage,
    id: Seq<char>,
    op: u64,
    payload: Seq<char>,
)
    requires
        session_inv(s),
        m.kind == GraphQLOverWebSocketMessage::Start,
        request_id(m) != id,
    ensures
        next_session(s, WsFrame::Text(Some(m)), true).live.contains((id, op)) == s.live.contains(
            (id, op),
        ),
        result_actions(next_session(s, WsFrame::Text(Some(m)), true), id, op, payload)
            == result_actions(s, id, op, payload),
{
}

} // verus!
