use vstd::prelude::*;
use vstd::string::*;

use crate::ws_util::str_equal;

verus! {

/// The reply to an HTTP request: status code, content type and body.
pub struct HttpReply {
    pub status: u16,
    pub content_type: String,
    pub body: String,
}

/// The HTTP methods on which the GraphQL endpoint answers.
#[derive(Debug, Clone, Copy, PartialEq, Eq, Structural)]
pub enum GraphQLMethod {
    Get,
    Post,
}

/// Why a GraphQL HTTP request is refused.
#[derive(Debug, Clone, PartialEq, Eq)]
pub enum HandlerError {
    /// The method is neither GET nor POST.
    MethodNotAllowed,
    /// A POST request whose content type is neither JSON nor GraphQL.
    UnsupportedMediaType,
    /// The body could not be read as a GraphQL request; the text says why.
    BadRequest(String),
}

/// The status code of each refusal.
pub open spec fn error_status(e: HandlerError) -> u16 {
    match e {
        HandlerError::MethodNotAllowed => 405,
        HandlerError::UnsupportedMediaType => 415,
        HandlerError::BadRequest(_) => 400,
    }
}

/// The text sent with each refusal.
pub open spec fn error_text(e: HandlerError) -> Seq<char> {
    match e {
        HandlerError::MethodNotAllowed => "GraphQL requests can only be sent with GET or POST"@,
        HandlerError::UnsupportedMediaType => "GraphQL requests should have content type `application/json` or `application/graphql`"@,
        HandlerError::BadRequest(reason) => reason@,
    }
}

impl HandlerError {
    /// The HTTP status code of this refusal.
    pub fn status_code(&self) -> (r: u16)
        ensures
            r == error_status(*self),
    {
        match self {
            HandlerError::MethodNotAllowed => 405,
            HandlerError::UnsupportedMediaType => 415,
            HandlerError::BadRequest(_) => 400,
        }
    }

    /// The text sent with this refusal.
    pub fn message(&self) -> (r: String)
        ensures
            r@ == error_text(*self),
    {
        match self {
            HandlerError::MethodNotAllowed => "GraphQL requests can only be sent with GET or POST".to_owned(),
            HandlerError::UnsupportedMediaType => "GraphQL requests should have content type `application/json` or `application/graphql`".to_owned(),
            HandlerError::BadRequest(reason) => reason.clone(),
        }
    }
}

/// The GraphQL endpoint answers GET and POST, and refuses every other method.
pub open spec fn spec_route(method: Seq<char>) -> Result<GraphQLMethod, HandlerError> {
    if method == "POST"@ {
        Ok(GraphQLMethod::Post)
    } else if method == "GET"@ {
        Ok(GraphQLMethod::Get)
    } else {
        Err(HandlerError::MethodNotAllowed)
    }
}

/// The two method names that are routed differ.
proof fn lemma_get_is_not_post()
    ensures
        "GET"@ != "POST"@,
{
    reveal_strlit("GET");
    reveal_strlit("POST");
    assert("GET"@.len() != "POST"@.len());
}

/// The content types under which a POST body is read as a GraphQL request.
pub open spec fn accepted_content_type(content_type: Option<Seq<char>>) -> bool {
    match content_type {
        Some(t) => t == "application/json"@ || t == "application/graphql"@,
        None => false,
    }
}

/// The view of an optional string slice.
pub open spec fn opt_str_view(o: Option<&str>) -> Option<Seq<char>> {
    match o {
        Some(s) => Some(s@),
        None => None,
    }
}

/// Which handler answers a request with this method (its name, such as
/// "GET"); any method but GET and POST is refused.
pub fn route_method(method: &str) -> (r: Result<GraphQLMethod, HandlerError>)
    ensures
        r == spec_route(method@),
        r is Ok <==> (method@ == "GET"@ || method@ == "POST"@),
        method@ == "GET"@ ==> r == Ok::<GraphQLMethod, HandlerError>(GraphQLMethod::Get),
        method@ == "POST"@ ==> r == Ok::<GraphQLMethod, HandlerError>(GraphQLMethod::Post),
        r is Err ==> r == Err::<GraphQLMethod, HandlerError>(HandlerError::MethodNotAllowed),
{
    proof {
        lemma_get_is_not_post();
    }
    if str_equal(method, "POST") {
        Ok(GraphQLMethod::Post)
    } else if str_equal(method, "GET") {
        Ok(GraphQLMethod::Get)
    } else {
        Err(HandlerError::MethodNotAllowed)
    }
}

/// Whether a POST request with this content type (absent, or not readable
/// as text) is read as a GraphQL request; refused as an unsupported media
/// type if not.
pub fn check_post_content_type(content_type: Option<&str>) -> (r: Result<(), HandlerError>)
    ensures
        r is Ok <==> (content_type is Some && (content_type.unwrap()@ == "application/json"@
            || content_type.unwrap()@ == "application/graphql"@)),
        r is Ok <==> accepted_content_type(opt_str_view(content_type)),
        r is Err ==> r == Err::<(), HandlerError>(HandlerError::UnsupportedMediaType),
{
    match content_type {
        Some(t) => {
            if str_equal(t, "application/json") || str_equal(t, "application/graphql") {
                Ok(())
            } else {
                Err(HandlerError::UnsupportedMediaType)
            }
        },
        None => Err(HandlerError::UnsupportedMediaType),
    }
}

/// The reply that carries a serialized GraphQL response: 200 where execution
/// succeeded, 400 where it did not, as JSON.
pub fn graphql_response(is_ok: bool, body: String) -> (r: HttpReply)
    ensures
        r.status == (if is_ok { 200u16 } else { 400u16 }),
        r.content_type@ == "application/json"@,
        r.body@ == body@,
{
    HttpReply {
        status: if is_ok { 200 } else { 400 },
        content_type: "application/json".to_owned(),
        body,
    }
}

/// Whether `needle` occurs in `hay`.
pub open spec fn contains_seq(hay: Seq<char>, needle: Seq<char>) -> bool {
    exists|i: int|
        0 <= i && i + needle.len() <= hay.len() && #[trigger] hay.subrange(i, i + needle.len())
            == needle
}

/// The page of the GraphiQL interface that `juniper::http::graphiql::graphiql_source`
/// generates for these endpoint URLs.
pub uninterp spec fn graphiql_html(graphql_url: Seq<char>, subscriptions_url: Option<Seq<char>>) -> Seq<char>;

/// The page of the GraphQL Playground interface that
/// `juniper::http::playground::playground_source` generates for these endpoint URLs.
pub uninterp spec fn playground_html(graphql_url: Seq<char>, subscriptions_url: Option<Seq<char>>) -> Seq<char>;

/// The subscriptions URL written into the GraphiQL page: the given one, or
/// the empty string.
pub open spec fn graphiql_subscriptions_url(subscriptions_url: Option<Seq<char>>) -> Seq<char> {
    match subscriptions_url {
        Some(u) => u,
        None => Seq::empty(),
    }
}

/// The subscriptions URL written into the Playground page: the given one, or
/// the GraphQL URL.
pub open spec fn playground_subscriptions_url(graphql_url: Seq<char>, subscriptions_url: Option<Seq<char>>) -> Seq<char> {
    match subscriptions_url {
        Some(u) => u,
        None => graphql_url,
    }
}

/// The script line of the GraphiQL page that names its GraphQL endpoint.
pub open spec fn graphiql_url_line(graphql_url: Seq<char>) -> Seq<char> {
    "<script>var GRAPHQL_URL = '"@ + graphql_url + "';</script>"@
}

/// The script line of the GraphiQL page that names its subscriptions endpoint.
pub open spec fn graphiql_subscriptions_line(subscriptions_url: Option<Seq<char>>) -> Seq<char> {
    "<script>var GRAPHQL_SUBSCRIPTIONS_URL = '"@ + graphiql_subscriptions_url(subscriptions_url)
        + "';</script>"@
}

/// The script line of the GraphiQL page that says whether it subscribes.
pub open spec fn graphiql_using_subscriptions_line(subscriptions_url: Option<Seq<char>>) -> Seq<char> {
    "<script>var usingSubscriptions = "@ + (if subscriptions_url is Some {
        "true"@
    } else {
        "false"@
    }) + ";</script>"@
}

/// The call of the Playground page that names its endpoints.
pub open spec fn playground_init_call(graphql_url: Seq<char>, subscriptions_url: Option<Seq<char>>) -> Seq<char> {
    "GraphQLPlayground.init(root, { endpoint: '"@ + graphql_url + "', subscriptionEndpoint: '"@
        + playground_subscriptions_url(graphql_url, subscriptions_url) + "' })"@
}

/// `juniper::http::graphiql::graphiql_source`: the GraphiQL page for these
/// endpoints. Its source writes the GraphQL URL, the subscriptions URL (or
/// the empty string) and whether there is one into three script lines of a
/// fixed page; the rest of the page is only named.
#[verifier::external_body]
fn graphiql_source(graphql_url: &str, subscriptions_url: Option<&str>) -> (r: String)
    ensures
        r@ == graphiql_html(graphql_url@, opt_str_view(subscriptions_url)),
        contains_seq(r@, graphiql_url_line(graphql_url@)),
        contains_seq(r@, graphiql_subscriptions_line(opt_str_view(subscriptions_url))),
        contains_seq(r@, graphiql_using_subscriptions_line(opt_str_view(subscriptions_url))),
{
    juniper::http::graphiql::graphiql_source(graphql_url, subscriptions_url)
}

/// `juniper::http::playground::playground_source`: the Playground page for
/// these endpoints. Its source replaces one placeholder by the GraphQL URL,
/// then one by the subscriptions URL (or the GraphQL URL); where the GraphQL
/// URL itself holds the second placeholder, the second replacement reaches
/// into it, so the init call is stated only for the other URLs. The rest of
/// the page is only named.
#[verifier::external_body]
fn playground_source(graphql_url: &str, subscriptions_url: Option<&str>) -> (r: String)
    ensures
        r@ == playground_html(graphql_url@, opt_str_view(subscriptions_url)),
        !contains_seq(graphql_url@, "JUNIPER_SUBSCRIPTIONS_URL"@) ==> contains_seq(
            r@,
            playground_init_call(graphql_url@, opt_str_view(subscriptions_url)),
        ),
{
    juniper::http::playground::playground_source(graphql_url, subscriptions_url)
}

/// The reply that carries an HTML page.
pub fn html_response(page: String) -> (r: HttpReply)
    ensures
        r.status == 200,
        r.content_type@ == "text/html; charset=utf-8"@,
        r.body@ == page@,
{
    HttpReply { status: 200, content_type: "text/html; charset=utf-8".to_owned(), body: page }
}

/// The reply with the GraphiQL page for these endpoints; it does not route,
/// so it can answer on any endpoint.
pub fn graphiql_response(graphql_endpoint_url: &str, subscriptions_endpoint_url: Option<&str>) -> (r: HttpReply)
    ensures
        r.status == 200,
        r.content_type@ == "text/html; charset=utf-8"@,
        r.body@ == graphiql_html(graphql_endpoint_url@, opt_str_view(subscriptions_endpoint_url)),
        contains_seq(r.body@, graphiql_url_line(graphql_endpoint_url@)),
        contains_seq(r.body@, graphiql_subscriptions_line(opt_str_view(subscriptions_endpoint_url))),
        contains_seq(
            r.body@,
            graphiql_using_subscriptions_line(opt_str_view(subscriptions_endpoint_url)),
        ),
{
    html_response(graphiql_source(graphql_endpoint_url, subscriptions_endpoint_url))
}

/// The reply with the GraphQL Playground page for these endpoints; it does
/// not route, so it can answer on any endpoint.
pub fn playground_response(graphql_endpoint_url: &str, subscriptions_endpoint_url: Option<&str>) -> (r: HttpReply)
    ensures
        r.status == 200,
        r.content_type@ == "text/html; charset=utf-8"@,
        r.body@ == playground_html(graphql_endpoint_url@, opt_str_view(subscriptions_endpoint_url)),
        !contains_seq(graphql_endpoint_url@, "JUNIPER_SUBSCRIPTIONS_URL"@) ==> contains_seq(
            r.body@,
            playground_init_call(graphql_endpoint_url@, opt_str_view(subscriptions_endpoint_url)),
        ),
{
    html_response(playground_source(graphql_endpoint_url, subscriptions_endpoint_url))
}

} // verus!
