use vstd::prelude::*;
use crate::error::{Error, catalog_message, is_error_object};
use crate::value::{Json, field, is_text, member};

verus! {

/// `r` is a response object of the protocol version "2.0" that carries `id` and
/// one further member.
pub open spec fn is_response(r: Json, id: Json) -> bool {
    &&& r matches Json::Object(ms) && ms@.len() == 3
    &&& is_text(field(r, "jsonrpc"@), "2.0"@)
    &&& field(r, "id"@) == Some(id)
}

/// `r` is the success response for `id` with result `v`.
pub open spec fn is_result_response(r: Json, id: Json, v: Json) -> bool {
    &&& is_response(r, id)
    &&& field(r, "result"@) == Some(v)
    &&& field(r, "error"@) is None
}

/// `r` is the error response for `id` with the given error object.
pub open spec fn is_error_response(
    r: Json,
    id: Json,
    code: i64,
    message: Seq<char>,
    data: Option<Json>,
) -> bool {
    &&& is_response(r, id)
    &&& field(r, "result"@) is None
    &&& field(r, "error"@) matches Some(o) && is_error_object(o, code, message, data)
}

/// `r` is the error response for `id` with the catalogued error `code` and no data.
pub open spec fn is_catalog_response(r: Json, id: Json, code: i64) -> bool {
    is_error_response(r, id, code, catalog_message(code), None)
}

/// What is owed for a request with `id` whose handler came back with `outcome`:
/// nothing for a notification, else the matching response.
pub open spec fn responds(id: Option<Json>, outcome: Result<Json, Error>, r: Option<Json>) -> bool {
    match id {
        None => r is None,
        Some(i) => match (outcome, r) {
            (Ok(v), Some(resp)) => is_result_response(resp, i, v),
            (Err(e), Some(resp)) => is_error_response(resp, i, e.code, e.message@, e.data),
            _ => false,
        },
    }
}

proof fn lemma_keys_distinct()
    ensures
        "error"@ != "id"@,
        "error"@ != "jsonrpc"@,
        "error"@ != "result"@,
        "id"@ != "jsonrpc"@,
        "id"@ != "result"@,
        "jsonrpc"@ != "result"@,
{
    reveal_strlit("error");
    reveal_strlit("id");
    reveal_strlit("jsonrpc");
    reveal_strlit("result");
    assert("error"@.len() != "id"@.len());
    assert("error"@.len() != "jsonrpc"@.len());
    assert("error"@.len() != "result"@.len());
    assert("id"@.len() != "jsonrpc"@.len());
    assert("id"@.len() != "result"@.len());
    assert("jsonrpc"@.len() != "result"@.len());
}

/// The success response `{"id": id, "jsonrpc": "2.0", "result": v}`.
pub fn result_response(id: Json, v: Json) -> (r: Json)
    ensures
        is_result_response(r, id, v),
{
    let mut members: Vec<(String, Json)> = Vec::new();
    members.push(("id".to_owned(), id));
    members.push(("jsonrpc".to_owned(), Json::String("2.0".to_owned())));
    members.push(("result".to_owned(), v));
    proof {
        lemma_keys_distinct();
        reveal_with_fuel(member, 4);
    }
    Json::Object(members)
}

/// The error response `{"error": e, "id": id, "jsonrpc": "2.0"}`.
pub fn error_response(id: Json, e: Error) -> (r: Json)
    ensures
        is_error_response(r, id, e.code, e.message@, e.data),
{
    let mut members: Vec<(String, Json)> = Vec::new();
    members.push(("error".to_owned(), e.into_object()));
    members.push(("id".to_owned(), id));
    members.push(("jsonrpc".to_owned(), Json::String("2.0".to_owned())));
    proof {
        lemma_keys_distinct();
        reveal_with_fuel(member, 4);
    }
    Json::Object(members)
}

/// Turns a handler's outcome into what is owed for the request with `id`.
pub fn respond(id: Option<Json>, outcome: Result<Json, Error>) -> (r: Option<Json>)
    ensures
        responds(id, outcome, r),
{
    match id {
        None => None,
        Some(i) => match outcome {
            Ok(v) => Some(result_response(i, v)),
            Err(e) => Some(error_response(i, e)),
        },
    }
}

} // verus!
