use juniper_actix::{
    connection_verdict, notify_handler,
    gql_complete, gql_connection_ack, gql_connection_error, gql_connection_ka, gql_data,
    gql_error, gql_type_value, ClientMessage, EmptySubscriptionHandler, GraphQLOverWebSocketMessage, Lifecycle,
    SessionState, SubscriptionState, SubscriptionStateHandler, WsAction, WsFrame,
    KEEP_ALIVE_INTERVAL_SECS,
};

const ALL: [GraphQLOverWebSocketMessage; 10] = [
    GraphQLOverWebSocketMessage::ConnectionInit,
    GraphQLOverWebSocketMessage::ConnectionAck,
    GraphQLOverWebSocketMessage::ConnectionError,
    GraphQLOverWebSocketMessage::ConnectionKeepAlive,
    GraphQLOverWebSocketMessage::ConnectionTerminate,
    GraphQLOverWebSocketMessage::Start,
    GraphQLOverWebSocketMessage::Data,
    GraphQLOverWebSocketMessage::Error,
    GraphQLOverWebSocketMessage::Complete,
    GraphQLOverWebSocketMessage::Stop,
];

fn text(id: Option<&str>, kind: GraphQLOverWebSocketMessage, has_query: bool) -> WsFrame {
    WsFrame::Text(Some(ClientMessage {
        text: format!("{{\"type\":\"{}\"}}", kind.protocol_name()),
        id: id.map(|s| s.to_string()),
        kind,
        has_query,
    }))
}

fn started_session() -> SessionState {
    let mut s = SessionState::new();
    s.handle(&text(None, GraphQLOverWebSocketMessage::ConnectionInit, false), true);
    s
}

#[test]
fn protocol_names_match_the_protocol() {
    let names: Vec<&str> = ALL.iter().map(|m| m.protocol_name()).collect();
    assert_eq!(
        names,
        vec![
            "connection_init",
            "connection_ack",
            "connection_error",
            "ka",
            "connection_terminate",
            "start",
            "data",
            "error",
            "complete",
            "stop"
        ]
    );
}

#[test]
fn protocol_name_round_trip() {
    for m in ALL.iter() {
        assert_eq!(GraphQLOverWebSocketMessage::from_protocol_name(m.protocol_name()), Some(*m));
    }
    assert_eq!(GraphQLOverWebSocketMessage::from_protocol_name("keep_alive"), None);
    assert_eq!(GraphQLOverWebSocketMessage::from_protocol_name(""), None);
    assert_eq!(GraphQLOverWebSocketMessage::from_protocol_name("START"), None);
}

#[test]
fn type_value_is_quoted_name() {
    assert_eq!(gql_type_value(GraphQLOverWebSocketMessage::ConnectionAck), "\"connection_ack\"");
    assert_eq!(gql_type_value(GraphQLOverWebSocketMessage::ConnectionKeepAlive), "\"ka\"");
}

#[test]
fn server_messages_have_exact_text() {
    assert_eq!(gql_connection_ack(), r#"{"type":"connection_ack", "payload": null }"#);
    assert_eq!(gql_connection_ka(), r#"{"type":"ka", "payload": null }"#);
    assert_eq!(gql_connection_error(), r#"{"type":"connection_error", "payload": null }"#);
    assert_eq!(gql_complete("1"), r#"{"type":"complete","id":"1","payload":null}"#);
    assert_eq!(
        gql_data("1", r#"{"data":{"helloWorld":"Hello"}}"#),
        r#"{"type":"data","id":"1","payload":{"data":{"helloWorld":"Hello"}} }"#
    );
    assert_eq!(
        gql_error("7", Some(r#"[{"message":"bad"}]"#.to_string())),
        r#"{"type":"error","id":"7","payload":[{"message":"bad"}]}"#
    );
    assert_eq!(
        gql_error("7", None),
        r#"{"type":"error","id":"7","payload":Error deserializing GraphQLError}"#
    );
}

#[test]
fn empty_handler_accepts_every_state() {
    let handler = EmptySubscriptionHandler::default();
    let mut ctx = 5u32;
    assert!(SubscriptionStateHandler::<u32, std::io::Error>::handle(
        &handler,
        SubscriptionState::OnConnection(Some("{}".to_string()), &mut ctx)
    )
    .is_ok());
    assert!(SubscriptionStateHandler::<u32, std::io::Error>::handle(
        &handler,
        SubscriptionState::OnOperation(&mut ctx)
    )
    .is_ok());
    assert!(SubscriptionStateHandler::<u32, std::io::Error>::handle(
        &handler,
        SubscriptionState::OnOperationComplete(&ctx)
    )
    .is_ok());
    assert!(SubscriptionStateHandler::<u32, std::io::Error>::handle(
        &handler,
        SubscriptionState::OnDisconnect(&ctx)
    )
    .is_ok());
}

fn notify(e: Lifecycle) -> WsAction {
    WsAction::Notify(e)
}

#[test]
fn subscriptions() {
    // init, start operation "1", one result, stop "1"
    let mut s = SessionState::new();
    assert!(!s.has_started());
    let init = text(None, GraphQLOverWebSocketMessage::ConnectionInit, false);
    assert_eq!(
        s.handle(&init, true),
        vec![
            WsAction::Text(r#"{"type":"connection_ack", "payload": null }"#.to_string()),
            WsAction::Text(r#"{"type":"ka", "payload": null }"#.to_string()),
            WsAction::StartKeepAlive,
        ]
    );
    assert!(s.has_started());

    let start = text(Some("1"), GraphQLOverWebSocketMessage::Start, true);
    assert_eq!(
        s.handle(&start, true),
        vec![notify(Lifecycle::OnOperation), WsAction::Spawn("1".to_string(), 0)]
    );
    assert!(s.is_running("1"));

    assert_eq!(
        s.operation_result("1", 0, Some(r#"{"data":{"helloWorld":"Hello"}}"#.to_string())),
        vec![WsAction::Text(
            r#"{"type":"data","id":"1","payload":{"data":{"helloWorld":"Hello"}} }"#.to_string()
        )]
    );

    let stop = text(Some("1"), GraphQLOverWebSocketMessage::Stop, false);
    assert_eq!(
        s.handle(&stop, true),
        vec![
            notify(Lifecycle::OnOperationComplete),
            WsAction::Cancel("1".to_string(), 0),
            WsAction::Text(r#"{"type":"complete","id":"1","payload":null}"#.to_string()),
        ]
    );
    assert!(!s.is_running("1"));
}

#[test]
fn rejected_connection_is_closed() {
    let mut s = SessionState::new();
    let init = text(None, GraphQLOverWebSocketMessage::ConnectionInit, false);
    assert_eq!(
        s.handle(&init, false),
        vec![
            WsAction::Text(r#"{"type":"connection_error", "payload": null }"#.to_string()),
            notify(Lifecycle::OnDisconnect),
            WsAction::Stop,
        ]
    );
    assert!(!s.has_started());
}

#[test]
fn start_and_stop_ignored_before_init() {
    let mut s = SessionState::new();
    let start = text(Some("a"), GraphQLOverWebSocketMessage::Start, true);
    let stop = text(Some("a"), GraphQLOverWebSocketMessage::Stop, false);
    assert!(s.handle(&start, true).is_empty());
    assert!(s.handle(&stop, true).is_empty());
    assert!(!s.is_running("a"));
    assert!(!s.has_started());
}

#[test]
fn start_without_id_uses_id_one() {
    let mut s = started_session();
    let start = text(None, GraphQLOverWebSocketMessage::Start, true);
    assert_eq!(
        s.handle(&start, true),
        vec![notify(Lifecycle::OnOperation), WsAction::Spawn("1".to_string(), 0)]
    );
    assert!(s.is_running("1"));
}

#[test]
fn duplicate_start_is_ignored() {
    let mut s = started_session();
    let start = text(Some("x"), GraphQLOverWebSocketMessage::Start, true);
    assert_eq!(
        s.handle(&start, true),
        vec![notify(Lifecycle::OnOperation), WsAction::Spawn("x".to_string(), 0)]
    );
    assert!(s.handle(&start, true).is_empty());
    assert!(s.is_running("x"));
}

#[test]
fn stop_of_unknown_id_is_silent() {
    let mut s = started_session();
    let stop = text(Some("nope"), GraphQLOverWebSocketMessage::Stop, false);
    assert!(s.handle(&stop, true).is_empty());
}

#[test]
fn operations_are_independent() {
    let mut s = started_session();
    s.handle(&text(Some("a"), GraphQLOverWebSocketMessage::Start, true), true);
    s.handle(&text(Some("b"), GraphQLOverWebSocketMessage::Start, true), true);
    let out = s.handle(&text(Some("a"), GraphQLOverWebSocketMessage::Stop, false), true);
    assert_eq!(out[1], WsAction::Cancel("a".to_string(), 0));
    assert!(!s.is_running("a"));
    assert!(s.is_running("b"));
    assert_eq!(s.operation_result("b", 1, None).len(), 1);
}

#[test]
fn connection_end_stops() {
    let disconnect = vec![notify(Lifecycle::OnDisconnect), WsAction::Stop];
    let mut s = started_session();
    assert_eq!(s.handle(&WsFrame::Close, true), disconnect);
    assert_eq!(s.handle(&WsFrame::Unsupported, true), disconnect);
    assert_eq!(s.handle(&WsFrame::ProtocolError, true), disconnect);
    let term = text(None, GraphQLOverWebSocketMessage::ConnectionTerminate, false);
    assert_eq!(s.handle(&term, true), disconnect);
    assert!(s.handle(&WsFrame::Text(None), true).is_empty());
    let ack = text(None, GraphQLOverWebSocketMessage::ConnectionAck, false);
    assert!(s.handle(&ack, true).is_empty());
}

#[test]
fn keep_alive_tick_keeps_connection_alive() {
    let mut s = started_session();
    assert_eq!(KEEP_ALIVE_INTERVAL_SECS, 10);
    assert_eq!(
        s.keep_alive_tick(),
        vec![WsAction::Text(r#"{"type":"ka", "payload": null }"#.to_string())]
    );
    s.handle(&text(Some("q"), GraphQLOverWebSocketMessage::Start, true), true);
    assert_eq!(
        s.keep_alive_tick(),
        vec![WsAction::Text(r#"{"type":"ka", "payload": null }"#.to_string())]
    );
}

#[test]
fn failed_subscription_reports_and_ends() {
    let mut s = started_session();
    s.handle(&text(Some("3"), GraphQLOverWebSocketMessage::Start, true), true);
    assert_eq!(
        s.operation_failed("3", 0, Some("\"oops\"".to_string())),
        vec![
            WsAction::Text(r#"{"type":"error","id":"3","payload":"oops"}"#.to_string()),
            notify(Lifecycle::OnOperationComplete),
            WsAction::Text(r#"{"type":"complete","id":"3","payload":null}"#.to_string()),
            notify(Lifecycle::OnDisconnect),
            WsAction::Stop,
        ]
    );
    assert!(s.is_running("3"));
    assert!(s.operation_failed("3", 0, None).is_empty());
}

#[test]
fn finished_operation_completes_once() {
    let mut s = started_session();
    s.handle(&text(Some("3"), GraphQLOverWebSocketMessage::Start, true), true);
    assert_eq!(
        s.operation_result("3", 0, None),
        vec![WsAction::Text(
            r#"{"type":"data","id":"3","payload":Error deserializing respone }"#.to_string()
        )]
    );
    assert_eq!(
        s.operation_finished("3", 0),
        vec![
            notify(Lifecycle::OnOperationComplete),
            WsAction::Text(r#"{"type":"complete","id":"3","payload":null}"#.to_string()),
        ]
    );
    // it stays registered: a new start under its id is ignored until a stop
    assert!(s.is_running("3"));
    assert!(s.operation_finished("3", 0).is_empty());
    assert!(s.operation_result("3", 0, None).is_empty());
    let start = text(Some("3"), GraphQLOverWebSocketMessage::Start, true);
    assert!(s.handle(&start, true).is_empty());
    let stop = text(Some("3"), GraphQLOverWebSocketMessage::Stop, false);
    assert_eq!(
        s.handle(&stop, true),
        vec![
            notify(Lifecycle::OnOperationComplete),
            WsAction::Cancel("3".to_string(), 0),
            WsAction::Text(r#"{"type":"complete","id":"3","payload":null}"#.to_string()),
        ]
    );
    assert!(!s.is_running("3"));
    assert_eq!(
        s.handle(&start, true),
        vec![notify(Lifecycle::OnOperation), WsAction::Spawn("3".to_string(), 1)]
    );
}

#[test]
fn stopped_operation_stays_silent_after_restart() {
    let mut s = started_session();
    let start = text(Some("k"), GraphQLOverWebSocketMessage::Start, true);
    let stop = text(Some("k"), GraphQLOverWebSocketMessage::Stop, false);
    s.handle(&start, true);
    s.handle(&stop, true);
    // a late result of the stopped operation is dropped
    assert!(s.operation_result("k", 0, Some("1".to_string())).is_empty());
    // the same id restarted is a new operation; the old one stays silent
    assert_eq!(
        s.handle(&start, true),
        vec![notify(Lifecycle::OnOperation), WsAction::Spawn("k".to_string(), 1)]
    );
    assert!(s.operation_result("k", 0, Some("1".to_string())).is_empty());
    assert!(s.operation_finished("k", 0).is_empty());
    assert_eq!(s.operation_result("k", 1, Some("1".to_string())).len(), 1);
}

struct Refusing;

impl SubscriptionStateHandler<u32, std::io::Error> for Refusing {
    fn handle(&self, state: SubscriptionState<u32>) -> Result<(), std::io::Error> {
        match state {
            SubscriptionState::OnConnection(text, ctx) => {
                *ctx += 1;
                if text.as_deref() == Some(r#"{"type":"connection_init"}"#) {
                    Err(std::io::Error::new(std::io::ErrorKind::Other, "refused"))
                } else {
                    Ok(())
                }
            }
            SubscriptionState::OnOperation(ctx) => {
                *ctx += 10;
                Ok(())
            }
            _ => Ok(()),
        }
    }
}

#[test]
fn connection_verdict_asks_handler_once_with_message_text() {
    let init = text(None, GraphQLOverWebSocketMessage::ConnectionInit, false);
    let mut ctx = 0u32;
    assert!(!connection_verdict(&init, Some(&Refusing), &mut ctx));
    assert_eq!(ctx, 1);
    let mut ctx = 0u32;
    assert!(connection_verdict::<u32, std::io::Error, Refusing>(&init, None, &mut ctx));
    assert_eq!(ctx, 0);
    let start = text(Some("1"), GraphQLOverWebSocketMessage::Start, true);
    assert!(connection_verdict(&start, Some(&Refusing), &mut ctx));
    assert_eq!(ctx, 0);
    let handler = EmptySubscriptionHandler::default();
    assert!(connection_verdict::<u32, std::io::Error, _>(&init, Some(&handler), &mut ctx));
}

#[test]
fn notify_handler_passes_context() {
    let mut ctx = 0u32;
    assert!(notify_handler(Lifecycle::OnOperation, Some(&Refusing), &mut ctx).is_ok());
    assert_eq!(ctx, 10);
    assert!(notify_handler(Lifecycle::OnDisconnect, Some(&Refusing), &mut ctx).is_ok());
    assert_eq!(ctx, 10);
    assert!(notify_handler::<u32, std::io::Error, Refusing>(Lifecycle::OnOperationComplete, None, &mut ctx).is_ok());
    assert_eq!(ctx, 10);
}
