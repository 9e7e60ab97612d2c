use vstd::prelude::*;

use crate::http::{accepted_content_type, error_status, spec_route, GraphQLMethod, HandlerError};

verus! {

/// Exactly the method names "GET" and "POST" are routed, each to its own
/// handler; every other name is refused as a method that is not allowed,
/// with status 405.
pub proof fn law_route(method: Seq<char>)
    ensures
        spec_route(method) is Ok <==> (method == "GET"@ || method == "POST"@),
        method == "GET"@ ==> spec_route(method) == Ok::<GraphQLMethod, HandlerError>(
            GraphQLMethod::Get,
        ),
        method == "POST"@ ==> spec_route(method) == Ok::<GraphQLMethod, HandlerError>(
            GraphQLMethod::Post,
        ),
        !(method == "GET"@ || method == "POST"@) ==> spec_route(method) == Err::<
            GraphQLMethod,
            HandlerError,
        >(HandlerError::MethodNotAllowed),
        error_status(HandlerError::MethodNotAllowed) == 405,
{
    reveal_strlit("GET");
    reveal_strlit("POST");
    assert("GET"@.len() != "POST"@.len());
}

/// A POST body is read exactly where its content type is "application/json"
/// or "application/graphql"; any other content type, and none, is refused as
/// an unsupported media type, with status 415.
pub proof fn law_content_type(content_type: Option<Seq<char>>)
    ensures
        accepted_content_type(content_type) <==> (content_type == Some("application/json"@)
            || content_type == Some("application/graphql"@)),
        error_status(HandlerError::UnsupportedMediaType) == 415,
{
}

} // verus!
