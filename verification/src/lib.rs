//! Verified core of the actix-web integration of Juniper: the decisions of
//! the GraphQL HTTP handlers and the server side of the GraphQL over
//! WebSocket subscription protocol.
pub mod http;
pub mod http_laws;
pub mod messages;
pub mod session;
pub mod session_laws;
pub mod ws_util;

pub use ws_util::{
    EmptySubscriptionHandler, GraphQLOverWebSocketMessage, SubscriptionState,
    SubscriptionStateHandler,
};
pub use http::{
    check_post_content_type, graphiql_response, graphql_response, html_response,
    playground_response, route_method, GraphQLMethod, HandlerError, HttpReply,
};
pub use messages::{
    gql_complete, gql_connection_ack, gql_connection_error, gql_connection_ka, gql_data,
    gql_error, gql_type_value,
};
pub use session::{
    connection_verdict, notify_handler, ClientMessage, Lifecycle,
    SessionState, WsAction, WsFrame, KEEP_ALIVE_INTERVAL_SECS,
};
