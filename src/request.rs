use vstd::prelude::*;
use crate::error::{Error, INVALID_REQUEST, catalog_message};
use crate::value::{Json, field, is_text, member};

verus! {

/// A request that passed the envelope checks.
#[derive(Debug)]
pub struct Request {
    pub method: String,
    /// `Null` where the request gave no params, else an array or an object.
    pub params: Json,
    /// `None` for a notification, which is owed no response.
    pub id: Option<Json>,
}

/// The kinds of value that may identify a request.
pub open spec fn is_id(v: Json) -> bool {
    v is Null || v is String || v is I64 || v is U64 || v is Double
}

/// `doc` is a well-formed request envelope.
pub open spec fn envelope_valid(doc: Json) -> bool {
    &&& doc is Object
    &&& is_text(field(doc, "jsonrpc"@), "2.0"@)
    &&& field(doc, "method"@) matches Some(Json::String(_))
    &&& match field(doc, "params"@) {
        None => true,
        Some(p) => p is Array || p is Object,
    }
    &&& match field(doc, "id"@) {
        None => true,
        Some(i) => is_id(i),
    }
}

/// The method that `doc` names.
pub open spec fn request_method(doc: Json) -> Seq<char> {
    match field(doc, "method"@) {
        Some(Json::String(s)) => s@,
        _ => Seq::empty(),
    }
}

/// The params of `doc`, `Null` where it has none.
pub open spec fn request_params(doc: Json) -> Json {
    match field(doc, "params"@) {
        Some(p) => p,
        None => Json::Null,
    }
}

/// The id of `doc`; `None` where the member is absent, `Some(Null)` where it is null.
pub open spec fn request_id(doc: Json) -> Option<Json> {
    field(doc, "id"@)
}

proof fn lemma_keys_distinct()
    ensures
        "jsonrpc"@ != "method"@,
        "jsonrpc"@ != "params"@,
        "jsonrpc"@ != "id"@,
        "method"@ != "params"@,
        "method"@ != "id"@,
        "params"@ != "id"@,
{
    reveal_strlit("jsonrpc");
    reveal_strlit("method");
    reveal_strlit("params");
    reveal_strlit("id");
    assert("method"@[0] != "params"@[0]);
    assert("jsonrpc"@.len() != "id"@.len());
    assert("method"@.len() != "id"@.len());
    assert("params"@.len() != "id"@.len());
}

fn invalid_request() -> (e: Error)
    ensures
        e.code == INVALID_REQUEST,
        e.message@ == catalog_message(INVALID_REQUEST),
        e.data is None,
{
    Error::predefined(INVALID_REQUEST, None)
}

/// Checks the envelope of a parsed request and takes it apart.
pub fn validate(doc: Json) -> (r: Result<Request, Error>)
    ensures
        r is Ok <==> envelope_valid(doc),
        r matches Ok(q) ==> q.method@ == request_method(doc) && q.params == request_params(doc)
            && q.id == request_id(doc),
        r matches Err(e) ==> e.code == INVALID_REQUEST && e.message@ == catalog_message(
            INVALID_REQUEST,
        ) && e.data is None,
{
    let ghost whole = doc;
    let mut members = match doc {
        Json::Object(ms) => ms,
        _ => return Err(invalid_request()),
    };
    let ghost all = members@;
    let key_version = "jsonrpc".to_owned();
    let key_method = "method".to_owned();
    let key_params = "params".to_owned();
    let key_id = "id".to_owned();
    let mut version: Option<Json> = None;
    let mut method: Option<Json> = None;
    let mut params: Option<Json> = None;
    let mut id: Option<Json> = None;
    while members.len() > 0
        invariant
            members.len() <= all.len(),
            members@ == all.take(members.len() as int),
            key_version@ == "jsonrpc"@,
            key_method@ == "method"@,
            key_params@ == "params"@,
            key_id@ == "id"@,
            version == member(all.skip(members.len() as int), "jsonrpc"@),
            method == member(all.skip(members.len() as int), "method"@),
            params == member(all.skip(members.len() as int), "params"@),
            id == member(all.skip(members.len() as int), "id"@),
        decreases members.len(),
    {
        let ghost n = members.len() as int;
        let (k, v) = members.pop().unwrap();
        proof {
            assert(all.skip(n - 1)[0] == (k, v));
            assert(all.skip(n - 1).drop_first() =~= all.skip(n));
            assert(members@ =~= all.take(n - 1));
            lemma_keys_distinct();
            assert forall|key: Seq<char>|
                #[trigger] member(all.skip(n - 1), key) == if k@ == key {
                    Some(v)
                } else {
                    member(all.skip(n), key)
                } by {}
        }
        if k == key_version {
            version = Some(v);
        } else if k == key_method {
            method = Some(v);
        } else if k == key_params {
            params = Some(v);
        } else if k == key_id {
            id = Some(v);
        }
    }
    assert(all.skip(0) =~= all);
    let two = "2.0".to_owned();
    let version_ok = match &version {
        Some(Json::String(s)) => *s == two,
        _ => false,
    };
    if !version_ok {
        return Err(invalid_request());
    }
    let method = match method {
        Some(Json::String(s)) => s,
        _ => return Err(invalid_request()),
    };
    let params = match params {
        None => Json::Null,
        Some(Json::Array(a)) => Json::Array(a),
        Some(Json::Object(o)) => Json::Object(o),
        _ => return Err(invalid_request()),
    };
    let id = match id {
        None => None,
        Some(Json::Boolean(_)) | Some(Json::Array(_)) | Some(Json::Object(_)) => {
            return Err(invalid_request());
        },
        Some(v) => Some(v),
    };
    Ok(Request { method, params, id })
}

} // verus!
