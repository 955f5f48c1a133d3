use vstd::prelude::*;
use crate::error::{Error, INVALID_REQUEST, METHOD_NOT_FOUND, PARSE_ERROR};
use crate::request::{envelope_valid, request_id, request_method};
use crate::response::{is_catalog_response, responds};
use crate::server::{Route, Server};
use crate::value::{Json, field, is_text};

verus! {

/// A well-formed request with an id always gets a response, and that response
/// carries the request's id, whatever its handler returns; a null id included.
pub proof fn law_response_echoes_id<H>(
    server: &Server<H>,
    doc: Json,
    route: Route<H>,
    outcome: Result<Json, Error>,
    sent: Option<Json>,
)
    requires
        envelope_valid(doc),
        request_id(doc) is Some,
        server.routes(Some(doc), route),
        route matches Route::Invoke { id, .. } ==> responds(id, outcome, sent),
    ensures
        !(route is Silent),
        route matches Route::Reply(r) ==> field(r, "id"@) == request_id(doc),
        route is Invoke ==> (sent matches Some(r) && field(r, "id"@) == request_id(doc)),
{
}

/// A well-formed request without an id is never answered, whatever its handler
/// returns and whether or not its method is registered.
pub proof fn law_notification_unanswered<H>(
    server: &Server<H>,
    doc: Json,
    route: Route<H>,
    outcome: Result<Json, Error>,
    sent: Option<Json>,
)
    requires
        envelope_valid(doc),
        request_id(doc) is None,
        server.routes(Some(doc), route),
        route matches Route::Invoke { id, .. } ==> responds(id, outcome, sent),
    ensures
        !(route is Reply),
        route is Invoke ==> sent is None,
{
}

/// A request whose "jsonrpc" member is absent or not the string "2.0" gets the
/// Invalid Request error with a null id.
pub proof fn law_wrong_version_rejected<H>(server: &Server<H>, doc: Json, route: Route<H>)
    requires
        !is_text(field(doc, "jsonrpc"@), "2.0"@),
        server.routes(Some(doc), route),
    ensures
        route matches Route::Reply(r) && is_catalog_response(r, Json::Null, INVALID_REQUEST),
{
}

/// A well-formed request for a method that is not registered gets the Method not
/// found error under its id where it has one, and nothing where it has none.
pub proof fn law_unknown_method<H>(server: &Server<H>, doc: Json, route: Route<H>)
    requires
        envelope_valid(doc),
        !server.methods().contains_key(request_method(doc)),
        server.routes(Some(doc), route),
    ensures
        request_id(doc) is None ==> route is Silent,
        request_id(doc) matches Some(i) ==> (route matches Route::Reply(r) && is_catalog_response(
            r,
            i,
            METHOD_NOT_FOUND,
        )),
{
}

/// Text that is not JSON gets exactly one response: the Parse error with a null id.
pub proof fn law_malformed_text<H>(server: &Server<H>, route: Route<H>)
    requires
        server.routes(None, route),
    ensures
        route matches Route::Reply(r) && is_catalog_response(r, Json::Null, PARSE_ERROR),
{
}

} // verus!
