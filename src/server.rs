use vstd::prelude::*;
use crate::error::{Error, INVALID_REQUEST, METHOD_NOT_FOUND, PARSE_ERROR};
use crate::request::{envelope_valid, request_id, request_method, request_params, validate};
use crate::response::{error_response, is_catalog_response};
use crate::value::Json;

verus! {

/// The map from method name to handler that a list of registrations leaves:
/// a later registration of a name overrides an earlier one.
pub open spec fn table<H>(entries: Seq<(String, H)>) -> Map<Seq<char>, H>
    decreases entries.len(),
{
    if entries.len() == 0 {
        Map::empty()
    } else {
        table(entries.drop_last()).insert(entries.last().0@, entries.last().1)
    }
}

proof fn lemma_table_prefix<H>(s: Seq<(String, H)>, n: int, k: Seq<char>)
    requires
        0 <= n <= s.len(),
        forall|j: int| n <= j < s.len() ==> s[j].0@ != k,
    ensures
        table(s).contains_key(k) == table(s.take(n)).contains_key(k),
        table(s).contains_key(k) ==> table(s)[k] == table(s.take(n))[k],
    decreases s.len(),
{
    if s.len() > n {
        lemma_table_prefix(s.drop_last(), n, k);
        assert(s.drop_last().take(n) =~= s.take(n));
    } else {
        assert(s.take(n) =~= s);
    }
}

/// What the server does with one request.
pub enum Route<'a, H> {
    /// Send this response at once.
    Reply(Json),
    /// Run `handler` on `params`, then hand its outcome and `id` to `respond`.
    Invoke { handler: &'a H, params: Json, id: Option<Json> },
    /// Send nothing.
    Silent,
}

/// A registry of method handlers that routes requests to them.
pub struct Server<H> {
    methods: Vec<(String, H)>,
}

impl<H> Server<H> {
    /// The handler registered under each name.
    pub closed spec fn methods(&self) -> Map<Seq<char>, H> {
        table(self.methods@)
    }

    /// The route owed to a request: `parsed` is the parsed text, `None` where it
    /// was not JSON.
    pub open spec fn routes(&self, parsed: Option<Json>, r: Route<H>) -> bool {
        match parsed {
            None => r matches Route::Reply(resp) && is_catalog_response(resp, Json::Null, PARSE_ERROR),
            Some(doc) => if !envelope_valid(doc) {
                r matches Route::Reply(resp) && is_catalog_response(
                    resp,
                    Json::Null,
                    INVALID_REQUEST,
                )
            } else if self.methods().contains_key(request_method(doc)) {
                r matches Route::Invoke { handler, params, id } && *handler == self.methods()[request_method(doc)]
                    && params == request_params(doc) && id == request_id(doc)
            } else {
                match request_id(doc) {
                    None => r is Silent,
                    Some(i) => r matches Route::Reply(resp) && is_catalog_response(
                        resp,
                        i,
                        METHOD_NOT_FOUND,
                    ),
                }
            },
        }
    }

    /// A server with no methods.
    pub fn new() -> (r: Self)
        ensures
            r.methods() == Map::<Seq<char>, H>::empty(),
    {
        Server { methods: Vec::new() }
    }

    /// Registers `f` under `method`, replacing any handler of that name.
    pub fn register_method(&mut self, method: &str, f: H)
        ensures
            final(self).methods() == old(self).methods().insert(method@, f),
    {
        self.methods.push((method.to_owned(), f));
        proof {
            assert(self.methods@.drop_last() =~= old(self).methods@);
        }
    }

    /// The handler registered under `method`.
    pub fn lookup(&self, method: &String) -> (r: Option<&H>)
        ensures
            r is Some <==> self.methods().contains_key(method@),
            r matches Some(h) ==> *h == self.methods()[method@],
    {
        let mut i: usize = self.methods.len();
        while i > 0
            invariant
                i <= self.methods@.len(),
                forall|j: int| i <= j < self.methods@.len() ==> self.methods@[j].0@ != method@,
            decreases i,
        {
            if self.methods[i - 1].0 == *method {
                proof {
                    let s = self.methods@;
                    lemma_table_prefix(s, i as int, method@);
                    assert(s.take(i as int).drop_last() =~= s.take(i - 1));
                }
                return Some(&self.methods[i - 1].1);
            }
            i = i - 1;
        }
        proof {
            lemma_table_prefix(self.methods@, 0, method@);
        }
        None
    }

    /// Decides what is owed to one request.
    pub fn request(&self, parsed: Option<Json>) -> (r: Route<'_, H>)
        ensures
            self.routes(parsed, r),
    {
        let doc = match parsed {
            None => return Route::Reply(error_response(Json::Null, Error::predefined(PARSE_ERROR, None))),
            Some(doc) => doc,
        };
        let req = match validate(doc) {
            Ok(q) => q,
            Err(e) => return Route::Reply(error_response(Json::Null, e)),
        };
        match self.lookup(&req.method) {
            Some(handler) => Route::Invoke { handler, params: req.params, id: req.id },
            None => match req.id {
                None => Route::Silent,
                Some(i) => Route::Reply(error_response(i, Error::predefined(METHOD_NOT_FOUND, None))),
            },
        }
    }
}

} // verus!
