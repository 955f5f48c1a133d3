use vstd::prelude::*;

verus! {

/// A JSON value as the protocol logic reads it.
///
/// An object keeps its members in the order given; looking a key up takes the
/// first member that has it.
#[derive(Debug)]
pub enum Json {
    Null,
    Boolean(bool),
    I64(i64),
    U64(u64),
    /// A double-precision number, held as its IEEE 754 bit pattern so that it is
    /// echoed exactly.
    Double(u64),
    String(String),
    Array(Vec<Json>),
    Object(Vec<(String, Json)>),
}

/// The value of the first member of `members` whose key is `key`.
pub open spec fn member(members: Seq<(String, Json)>, key: Seq<char>) -> Option<Json>
    decreases members.len(),
{
    if members.len() == 0 {
        None
    } else if members[0].0@ == key {
        Some(members[0].1)
    } else {
        member(members.drop_first(), key)
    }
}

/// The member `key` of `v`, when `v` is an object.
pub open spec fn field(v: Json, key: Seq<char>) -> Option<Json> {
    match v {
        Json::Object(ms) => member(ms@, key),
        _ => None,
    }
}

impl Json {
    /// The member `key` of this value, when it is an object that has one.
    pub fn get(&self, key: &str) -> (r: Option<&Json>)
        ensures
            r is Some <==> field(*self, key@) is Some,
            r matches Some(v) ==> field(*self, key@) == Some(*v),
    {
        let members = match self {
            Json::Object(ms) => ms,
            _ => return None,
        };
        let wanted = key.to_owned();
        let mut i: usize = 0;
        assert(members@.skip(0) =~= members@);
        while i < members.len()
            invariant
                i <= members@.len(),
                wanted@ == key@,
                field(*self, key@) == member(members@.skip(i as int), key@),
            decreases members.len() - i,
        {
            assert(members@.skip(i as int).drop_first() =~= members@.skip(i + 1));
            assert(members@.skip(i as int)[0] == members@[i as int]);
            if members[i].0 == wanted {
                return Some(&members[i].1);
            }
            i = i + 1;
        }
        None
    }
}

/// `v` is present and is the string `text`.
pub open spec fn is_text(v: Option<Json>, text: Seq<char>) -> bool {
    match v {
        Some(Json::String(s)) => s@ == text,
        _ => false,
    }
}

} // verus!
