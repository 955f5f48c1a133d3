use vstd::prelude::*;
use crate::value::{Json, field, is_text, member};

verus! {

pub const PARSE_ERROR: i64 = -32700;
pub const INVALID_REQUEST: i64 = -32600;
pub const METHOD_NOT_FOUND: i64 = -32601;
pub const INVALID_PARAMS: i64 = -32602;
pub const INTERNAL_ERROR: i64 = -32603;

/// The codes that the protocol reserves for its own errors.
pub open spec fn reserved(code: i64) -> bool {
    -32768 <= code && code <= -32000
}

/// The reserved codes that have a defined meaning.
pub open spec fn in_catalog(code: i64) -> bool {
    code == PARSE_ERROR || code == INVALID_REQUEST || code == METHOD_NOT_FOUND
        || code == INVALID_PARAMS || code == INTERNAL_ERROR || (-32099 <= code && code
        <= -32000)
}

/// The fixed message of a catalogued code.
pub open spec fn catalog_message(code: i64) -> Seq<char> {
    if code == PARSE_ERROR {
        "Parse error"@
    } else if code == INVALID_REQUEST {
        "Invalid Request"@
    } else if code == METHOD_NOT_FOUND {
        "Method not found"@
    } else if code == INVALID_PARAMS {
        "Invalid params"@
    } else if code == INTERNAL_ERROR {
        "Internal error"@
    } else {
        "Server error"@
    }
}

/// An error object of the protocol: a code, a message and optional data.
#[derive(Debug)]
pub struct Error {
    pub code: i64,
    pub message: String,
    pub data: Option<Json>,
}

/// `o` is the error object `{"code": code, "message": message, "data": data}`,
/// with no `data` member where `data` is `None`.
pub open spec fn is_error_object(o: Json, code: i64, message: Seq<char>, data: Option<Json>) -> bool {
    &&& o matches Json::Object(ms) && ms@.len() == if data is Some { 3int } else { 2int }
    &&& field(o, "code"@) == Some(Json::I64(code))
    &&& is_text(field(o, "message"@), message)
    &&& field(o, "data"@) == data
}

impl Error {
    /// An application error. The reserved codes are not available to it.
    pub fn custom(code: i64, message: &str, data: Option<Json>) -> (r: Error)
        requires
            !reserved(code),
        ensures
            r.code == code,
            r.message@ == message@,
            r.data == data,
    {
        Error { code, message: message.to_owned(), data }
    }

    /// The error of a catalogued code, with its fixed message.
    pub fn predefined(code: i64, data: Option<Json>) -> (r: Error)
        requires
            in_catalog(code),
        ensures
            r.code == code,
            r.message@ == catalog_message(code),
            r.data == data,
    {
        let text = if code == PARSE_ERROR {
            "Parse error"
        } else if code == INVALID_REQUEST {
            "Invalid Request"
        } else if code == METHOD_NOT_FOUND {
            "Method not found"
        } else if code == INVALID_PARAMS {
            "Invalid params"
        } else if code == INTERNAL_ERROR {
            "Internal error"
        } else {
            "Server error"
        };
        Error { code, message: text.to_owned(), data }
    }

    /// The error as a JSON object, its members in key order.
    pub fn into_object(self) -> (r: Json)
        ensures
            is_error_object(r, self.code, self.message@, self.data),
    {
        proof {
            reveal_strlit("code");
            reveal_strlit("data");
            reveal_strlit("message");
        }
        let mut members: Vec<(String, Json)> = Vec::new();
        members.push(("code".to_owned(), Json::I64(self.code)));
        let has_data = self.data.is_some();
        match self.data {
            Some(d) => members.push(("data".to_owned(), d)),
            None => {},
        }
        members.push(("message".to_owned(), Json::String(self.message)));
        let ghost ms = members@;
        assert("code"@[0] != "data"@[0]);
        assert(ms[0].0@ != "data"@ && ms[0].0@ != "message"@);
        if has_data {
            assert(ms[1].0@ != "message"@);
            assert(ms.drop_first().drop_first() =~= seq![ms[2]]);
            assert(ms.drop_first().drop_first().drop_first() =~= Seq::<(String, Json)>::empty());
        } else {
            assert(ms[1].0@ != "data"@);
            assert(ms.drop_first().drop_first() =~= Seq::<(String, Json)>::empty());
        }
        proof {
            reveal_with_fuel(member, 4);
        }
        Json::Object(members)
    }
}

} // verus!
