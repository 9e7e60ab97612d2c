use vstd::prelude::*;

verus! {

/// The message types of the GraphQL over WebSocket subscription protocol
/// (subscriptions-transport-ws). On the wire each one is written as the value
/// of the `type` field of a JSON object; `protocol_name` gives that value.
#[derive(Debug, Clone, Copy, PartialEq, Eq, Structural)]
pub enum GraphQLOverWebSocketMessage {
    /// Client -> Server: sent after the plain websocket connection is open,
    /// to start the communication with the server.
    ConnectionInit,
    /// Server -> Client: the server accepted the connection.
    ConnectionAck,
    /// Server -> Client: the server rejected the connection.
    ConnectionError,
    /// Server -> Client: sent right after each connection acknowledgement,
    /// then periodically to keep the client connection alive.
    ConnectionKeepAlive,
    /// Client -> Server: the client terminates the connection.
    ConnectionTerminate,
    /// Client -> Server: the client asks to execute a GraphQL operation.
    Start,
    /// Server -> Client: one GraphQL execution result of an operation.
    Data,
    /// Server -> Client: an operation failed before execution.
    Error,
    /// Server -> Client: an operation is done; no more data will arrive for it.
    Complete,
    /// Client -> Server: the client stops a running operation.
    Stop,
}

/// The wire name of each message type.
pub open spec fn wire_name(m: GraphQLOverWebSocketMessage) -> Seq<char> {
    match m {
        GraphQLOverWebSocketMessage::ConnectionInit => "connection_init"@,
        GraphQLOverWebSocketMessage::ConnectionAck => "connection_ack"@,
        GraphQLOverWebSocketMessage::ConnectionError => "connection_error"@,
        GraphQLOverWebSocketMessage::ConnectionKeepAlive => "ka"@,
        GraphQLOverWebSocketMessage::ConnectionTerminate => "connection_terminate"@,
        GraphQLOverWebSocketMessage::Start => "start"@,
        GraphQLOverWebSocketMessage::Data => "data"@,
        GraphQLOverWebSocketMessage::Error => "error"@,
        GraphQLOverWebSocketMessage::Complete => "complete"@,
        GraphQLOverWebSocketMessage::Stop => "stop"@,
    }
}

/// The message type whose wire name is `name`, if there is one.
pub open spec fn message_of_wire_name(name: Seq<char>) -> Option<GraphQLOverWebSocketMessage> {
    if name == "connection_init"@ {
        Some(GraphQLOverWebSocketMessage::ConnectionInit)
    } else if name == "connection_ack"@ {
        Some(GraphQLOverWebSocketMessage::ConnectionAck)
    } else if name == "connection_error"@ {
        Some(GraphQLOverWebSocketMessage::ConnectionError)
    } else if name == "ka"@ {
        Some(GraphQLOverWebSocketMessage::ConnectionKeepAlive)
    } else if name == "connection_terminate"@ {
        Some(GraphQLOverWebSocketMessage::ConnectionTerminate)
    } else if name == "start"@ {
        Some(GraphQLOverWebSocketMessage::Start)
    } else if name == "data"@ {
        Some(GraphQLOverWebSocketMessage::Data)
    } else if name == "error"@ {
        Some(GraphQLOverWebSocketMessage::Error)
    } else if name == "complete"@ {
        Some(GraphQLOverWebSocketMessage::Complete)
    } else if name == "stop"@ {
        Some(GraphQLOverWebSocketMessage::Stop)
    } else {
        None
    }
}

/// Whether two string slices hold the same characters.
pub fn str_equal(a: &str, b: &str) -> (r: bool)
    ensures
        r == (a@ == b@),
{
    let x: String = a.to_owned();
    let y: String = b.to_owned();
    x == y
}

impl GraphQLOverWebSocketMessage {
    /// The wire name of this message type, as it appears in the `type` field.
    pub fn protocol_name(&self) -> (r: &'static str)
        ensures
            r@ == wire_name(*self),
    {
        match self {
            GraphQLOverWebSocketMessage::ConnectionInit => "connection_init",
            GraphQLOverWebSocketMessage::ConnectionAck => "connection_ack",
            GraphQLOverWebSocketMessage::ConnectionError => "connection_error",
            GraphQLOverWebSocketMessage::ConnectionKeepAlive => "ka",
            GraphQLOverWebSocketMessage::ConnectionTerminate => "connection_terminate",
            GraphQLOverWebSocketMessage::Start => "start",
            GraphQLOverWebSocketMessage::Data => "data",
            GraphQLOverWebSocketMessage::Error => "error",
            GraphQLOverWebSocketMessage::Complete => "complete",
            GraphQLOverWebSocketMessage::Stop => "stop",
        }
    }

    /// The message type named by the value of a `type` field; `None` for a
    /// name that the protocol does not define.
    pub fn from_protocol_name(name: &str) -> (r: Option<GraphQLOverWebSocketMessage>)
        ensures
            r == message_of_wire_name(name@),
    {
        if str_equal(name, "connection_init") {
            Some(GraphQLOverWebSocketMessage::ConnectionInit)
        } else if str_equal(name, "connection_ack") {
            Some(GraphQLOverWebSocketMessage::ConnectionAck)
        } else if str_equal(name, "connection_error") {
            Some(GraphQLOverWebSocketMessage::ConnectionError)
        } else if str_equal(name, "ka") {
            Some(GraphQLOverWebSocketMessage::ConnectionKeepAlive)
        } else if str_equal(name, "connection_terminate") {
            Some(GraphQLOverWebSocketMessage::ConnectionTerminate)
        } else if str_equal(name, "start") {
            Some(GraphQLOverWebSocketMessage::Start)
        } else if str_equal(name, "data") {
            Some(GraphQLOverWebSocketMessage::Data)
        } else if str_equal(name, "error") {
            Some(GraphQLOverWebSocketMessage::Error)
        } else if str_equal(name, "complete") {
            Some(GraphQLOverWebSocketMessage::Complete)
        } else if str_equal(name, "stop") {
            Some(GraphQLOverWebSocketMessage::Stop)
        } else {
            None
        }
    }
}

/// Reading a message type back from its wire name gives the same message
/// type: the wire names of different message types never coincide.
pub proof fn lemma_wire_name_round_trip(m: GraphQLOverWebSocketMessage)
    ensures
        message_of_wire_name(wire_name(m)) == Some(m),
{
    reveal_strlit("connection_init");
    reveal_strlit("connection_ack");
    reveal_strlit("connection_error");
    reveal_strlit("ka");
    reveal_strlit("connection_terminate");
    reveal_strlit("start");
    reveal_strlit("data");
    reveal_strlit("error");
    reveal_strlit("complete");
    reveal_strlit("stop");
    // names of equal length differ in their first character
    assert("start"@[0] != "error"@[0]);
    assert("data"@[0] != "stop"@[0]);
    assert("connection_init"@.len() == 15);
    assert("connection_ack"@.len() == 14);
    assert("connection_error"@.len() == 16);
    assert("ka"@.len() == 2);
    assert("connection_terminate"@.len() == 20);
    assert("start"@.len() == 5);
    assert("data"@.len() == 4);
    assert("error"@.len() == 5);
    assert("complete"@.len() == 8);
    assert("stop"@.len() == 4);
}

/// The state of a subscription when the lifecycle handler is told of it.
pub enum SubscriptionState<'a, Context> where Context: Send + Sync {
    /// The server received the connection-init message; it carries the
    /// client's message text.
    OnConnection(Option<String>, &'a mut Context),
    /// An operation starts, after a start message was received.
    OnOperation(&'a mut Context),
    /// An operation ends, after a stop message was received.
    OnOperationComplete(&'a Context),
    /// The connection with the client is terminating.
    OnDisconnect(&'a Context),
}

/// A handler told of each change of a subscription's state; an error on
/// connection makes the server reject the connection.
pub trait SubscriptionStateHandler<Context, E> where Context: Send + Sync {
    /// Called with the new state of the subscription. By default it accepts
    /// every state and leaves the context as it was.
    fn handle(&self, _state: SubscriptionState<Context>) -> (r: Result<(), E>)
        default_ensures
            r is Ok,
            _state matches SubscriptionState::OnConnection(_, c) ==> *final(c) == *c,
            _state matches SubscriptionState::OnOperation(c) ==> *final(c) == *c,
    {
        Ok(())
    }
}

/// `std::io::Error`, the error type of the empty handler.
#[verifier::external_type_specification]
#[verifier::external_body]
pub struct ExIoError(std::io::Error);

/// A subscription handler that accepts every state change.
#[derive(Default)]
pub struct EmptySubscriptionHandler;

impl<Context> SubscriptionStateHandler<Context, std::io::Error> for EmptySubscriptionHandler where
    Context: Send + Sync,
 {

}

} // verus!
