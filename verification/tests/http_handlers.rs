use juniper_actix::{
    check_post_content_type, graphiql_response, graphql_response, html_response,
    playground_response, route_method, GraphQLMethod, HandlerError,
};

#[test]
fn only_get_and_post_are_routed() {
    assert_eq!(route_method("GET"), Ok(GraphQLMethod::Get));
    assert_eq!(route_method("POST"), Ok(GraphQLMethod::Post));
    assert_eq!(route_method("PUT"), Err(HandlerError::MethodNotAllowed));
    assert_eq!(route_method("get"), Err(HandlerError::MethodNotAllowed));
    assert_eq!(route_method("DELETE"), Err(HandlerError::MethodNotAllowed));
}

#[test]
fn refusals_have_status_and_text() {
    assert_eq!(HandlerError::MethodNotAllowed.status_code(), 405);
    assert_eq!(
        HandlerError::MethodNotAllowed.message(),
        "GraphQL requests can only be sent with GET or POST"
    );
    assert_eq!(HandlerError::UnsupportedMediaType.status_code(), 415);
    assert_eq!(
        HandlerError::UnsupportedMediaType.message(),
        "GraphQL requests should have content type `application/json` or `application/graphql`"
    );
    let bad = HandlerError::BadRequest("expected value at line 1 column 1".to_string());
    assert_eq!(bad.status_code(), 400);
    assert_eq!(bad.message(), "expected value at line 1 column 1");
}

#[test]
fn post_content_types() {
    assert_eq!(check_post_content_type(Some("application/json")), Ok(()));
    assert_eq!(check_post_content_type(Some("application/graphql")), Ok(()));
    assert_eq!(
        check_post_content_type(Some("text/plain")),
        Err(HandlerError::UnsupportedMediaType)
    );
    assert_eq!(
        check_post_content_type(Some("application/json; charset=utf-8")),
        Err(HandlerError::UnsupportedMediaType)
    );
    assert_eq!(check_post_content_type(None), Err(HandlerError::UnsupportedMediaType));
}

#[test]
fn graphql_reply_status_follows_execution() {
    let ok = graphql_response(true, r#"{"data":{"hero":{"name":"R2-D2"}}}"#.to_string());
    assert_eq!(ok.status, 200);
    assert_eq!(ok.content_type, "application/json");
    assert_eq!(ok.body, r#"{"data":{"hero":{"name":"R2-D2"}}}"#);
    let failed = graphql_response(false, "{\"errors\":[]}".to_string());
    assert_eq!(failed.status, 400);
    assert_eq!(failed.content_type, "application/json");
}

#[test]
fn graphiql_response_does_not_panic() {
    let reply = graphiql_response("/abcd", None);
    assert_eq!(reply.status, 200);
    assert!(reply.body.contains("<script>var GRAPHQL_URL = '/abcd';</script>"));
    assert!(reply.body.contains("<script>var usingSubscriptions = false;</script>"));
    assert!(reply.body.contains("<script>var GRAPHQL_SUBSCRIPTIONS_URL = '';</script>"));
}

#[test]
fn graphiql_endpoint_returns_graphiql_source() {
    let reply = graphiql_response("/dogs-api/graphql", Some("/dogs-api/subscriptions"));
    assert_eq!(reply.status, 200);
    assert_eq!(reply.content_type, "text/html; charset=utf-8");
    assert!(reply.body.contains("<script>var GRAPHQL_URL = '/dogs-api/graphql';</script>"));
    assert!(reply
        .body
        .contains("<script>var GRAPHQL_SUBSCRIPTIONS_URL = '/dogs-api/subscriptions';</script>"));
    assert!(reply.body.contains("<script>var usingSubscriptions = true;</script>"));
}

#[test]
fn playground_endpoint_returns_playground_source() {
    let reply = playground_response("/dogs-api/graphql", Some("/dogs-api/subscriptions"));
    assert_eq!(reply.status, 200);
    assert_eq!(reply.content_type, "text/html; charset=utf-8");
    assert!(reply.body.contains("GraphQLPlayground.init(root, { endpoint: '/dogs-api/graphql', subscriptionEndpoint: '/dogs-api/subscriptions' })"));
}

#[test]
fn playground_without_subscriptions_uses_graphql_url() {
    let reply = playground_response("/abcd", None);
    assert_eq!(reply.status, 200);
    assert!(reply.body.contains(
        "GraphQLPlayground.init(root, { endpoint: '/abcd', subscriptionEndpoint: '/abcd' })"
    ));
}

#[test]
fn html_reply_is_ok_html() {
    let reply = html_response("<p>hi</p>".to_string());
    assert_eq!(reply.status, 200);
    assert_eq!(reply.content_type, "text/html; charset=utf-8");
    assert_eq!(reply.body, "<p>hi</p>");
}

#[test]
fn graphiql_endpoint_matches() {
    assert_eq!(graphiql_response("/abcd", None).status, 200);
}

#[test]
fn playground_endpoint_matches() {
    assert_eq!(playground_response("/abcd", None).status, 200);
}
