use vstd::prelude::*;
use vstd::string::*;

use crate::ws_util::{wire_name, GraphQLOverWebSocketMessage};

verus! {

/// A string encoded as a JSON string value (wire names hold no character that
/// JSON escapes).
pub open spec fn json_quoted(s: Seq<char>) -> Seq<char> {
    seq!['"'] + s + seq!['"']
}

/// The JSON value of a message type, as found in the `type` field.
pub open spec fn type_value(m: GraphQLOverWebSocketMessage) -> Seq<char> {
    json_quoted(wire_name(m))
}

/// A server message of the given type that carries no id and a null payload.
pub open spec fn spec_bare_message(m: GraphQLOverWebSocketMessage) -> Seq<char> {
    "{\"type\":"@ + type_value(m) + ", \"payload\": null }"@
}

/// The error message of the operation `id`, with the given JSON payload.
pub open spec fn spec_error_message(id: Seq<char>, payload: Seq<char>) -> Seq<char> {
    "{\"type\":"@ + type_value(GraphQLOverWebSocketMessage::Error) + ",\"id\":\""@ + id
        + "\",\"payload\":"@ + payload + "}"@
}

/// The data message that carries one execution result of the operation `id`.
pub open spec fn spec_data_message(id: Seq<char>, payload: Seq<char>) -> Seq<char> {
    "{\"type\":"@ + type_value(GraphQLOverWebSocketMessage::Data) + ",\"id\":\""@ + id
        + "\",\"payload\":"@ + payload + " }"@
}

/// The message that tells the client that the operation `id` is done.
pub open spec fn spec_complete_message(id: Seq<char>) -> Seq<char> {
    "{\"type\":"@ + type_value(GraphQLOverWebSocketMessage::Complete) + ",\"id\":\""@ + id
        + "\",\"payload\":null}"@
}

/// The payload sent in an error message when the error could not be serialized.
pub open spec fn error_fallback() -> Seq<char> {
    "Error deserializing GraphQLError"@
}

/// The payload sent in a data message when the result could not be serialized.
pub open spec fn data_fallback() -> Seq<char> {
    "Error deserializing respone"@
}

/// The serialized payload, or the fallback where serialization failed.
pub open spec fn payload_or(serialized: Option<Seq<char>>, fallback: Seq<char>) -> Seq<char> {
    match serialized {
        Some(p) => p,
        None => fallback,
    }
}

/// The view of an optional string.
pub open spec fn opt_string_view(o: Option<String>) -> Option<Seq<char>> {
    match o {
        Some(s) => Some(s@),
        None => None,
    }
}

/// The JSON value of a message type, as found in the `type` field.
pub fn gql_type_value(m: GraphQLOverWebSocketMessage) -> (r: String)
    ensures
        r@ == type_value(m),
{
    let mut s: String = "\"".to_owned();
    s.append(m.protocol_name());
    s.append("\"");
    proof {
        reveal_strlit("\"");
        assert(s@ =~= json_quoted(wire_name(m)));
    }
    s
}

/// A message of the given type with no id and a null payload.
fn bare_message(m: GraphQLOverWebSocketMessage) -> (r: String)
    ensures
        r@ == spec_bare_message(m),
{
    let mut s: String = "{\"type\":".to_owned();
    let t = gql_type_value(m);
    s.append(t.as_str());
    s.append(", \"payload\": null }");
    s
}

/// The acknowledgement that the server accepted the connection.
pub fn gql_connection_ack() -> (r: String)
    ensures
        r@ == spec_bare_message(GraphQLOverWebSocketMessage::ConnectionAck),
{
    bare_message(GraphQLOverWebSocketMessage::ConnectionAck)
}

/// The keep-alive message.
pub fn gql_connection_ka() -> (r: String)
    ensures
        r@ == spec_bare_message(GraphQLOverWebSocketMessage::ConnectionKeepAlive),
{
    bare_message(GraphQLOverWebSocketMessage::ConnectionKeepAlive)
}

/// The message that tells the client that the server rejected the connection.
pub fn gql_connection_error() -> (r: String)
    ensures
        r@ == spec_bare_message(GraphQLOverWebSocketMessage::ConnectionError),
{
    bare_message(GraphQLOverWebSocketMessage::ConnectionError)
}

/// The error message of the operation `request_id`; its payload is the
/// serialized error, or a fixed text where the error could not be serialized.
pub fn gql_error(request_id: &str, serialized_error: Option<String>) -> (r: String)
    ensures
        r@ == spec_error_message(
            request_id@,
            payload_or(opt_string_view(serialized_error), error_fallback()),
        ),
{
    let payload: String = match serialized_error {
        Some(p) => p,
        None => "Error deserializing GraphQLError".to_owned(),
    };
    let mut s: String = "{\"type\":".to_owned();
    let t = gql_type_value(GraphQLOverWebSocketMessage::Error);
    s.append(t.as_str());
    s.append(",\"id\":\"");
    s.append(request_id);
    s.append("\",\"payload\":");
    s.append(payload.as_str());
    s.append("}");
    s
}

/// The data message that carries one execution result of the operation
/// `request_id`.
pub fn gql_data(request_id: &str, response_text: &str) -> (r: String)
    ensures
        r@ == spec_data_message(request_id@, response_text@),
{
    let mut s: String = "{\"type\":".to_owned();
    let t = gql_type_value(GraphQLOverWebSocketMessage::Data);
    s.append(t.as_str());
    s.append(",\"id\":\"");
    s.append(request_id);
    s.append("\",\"payload\":");
    s.append(response_text);
    s.append(" }");
    s
}

/// The message that tells the client that the operation `request_id` is done.
pub fn gql_complete(request_id: &str) -> (r: String)
    ensures
        r@ == spec_complete_message(request_id@),
{
    let mut s: String = "{\"type\":".to_owned();
    let t = gql_type_value(GraphQLOverWebSocketMessage::Complete);
    s.append(t.as_str());
    s.append(",\"id\":\"");
    s.append(request_id);
    s.append("\",\"payload\":null}");
    s
}

} // verus!
