use vstd::prelude::*;
use crate::error::{Error, INVALID_PARAMS, catalog_message};
use crate::value::{Json, field};

verus! {

/// `e` is the Invalid params error, with no data.
pub open spec fn is_invalid_params(e: Error) -> bool {
    e.code == INVALID_PARAMS && e.message@ == catalog_message(INVALID_PARAMS) && e.data is None
}

/// The members that `names` lists of the named params `params`, in the order of
/// `names`; Invalid params where `params` is no object or lacks one of them.
pub fn named<'a>(params: &'a Json, names: &Vec<&str>) -> (r: Result<Vec<&'a Json>, Error>)
    ensures
        r is Ok <==> (params is Object && forall|i: int|
            0 <= i < names@.len() ==> (#[trigger] field(*params, names@[i]@)) is Some),
        r matches Ok(vs) ==> vs@.len() == names@.len() && forall|i: int|
            0 <= i < names@.len() ==> field(*params, names@[i]@) == Some(*vs@[i]),
        r matches Err(e) ==> is_invalid_params(e),
{
    if !matches!(params, Json::Object(_)) {
        return Err(Error::predefined(INVALID_PARAMS, None));
    }
    let mut found: Vec<&'a Json> = Vec::new();
    let mut i: usize = 0;
    while i < names.len()
        invariant
            params is Object,
            i <= names@.len(),
            found@.len() == i,
            forall|j: int| 0 <= j < i ==> field(*params, names@[j]@) == Some(*found@[j]),
        decreases names.len() - i,
    {
        match params.get(names[i]) {
            Some(v) => found.push(v),
            None => return Err(Error::predefined(INVALID_PARAMS, None)),
        }
        i = i + 1;
    }
    assert forall|j: int| 0 <= j < names@.len() implies (#[trigger] field(*params, names@[j]@)) is Some by {
        assert(field(*params, names@[j]@) == Some(*found@[j]));
    }
    Ok(found)
}

/// The values of the positional params `params`; Invalid params where it is no
/// array.
pub fn positional(params: &Json) -> (r: Result<&Vec<Json>, Error>)
    ensures
        r is Ok <==> params is Array,
        r matches Ok(vs) ==> *params == Json::Array(*vs),
        r matches Err(e) ==> is_invalid_params(e),
{
    match params {
        Json::Array(vs) => Ok(vs),
        _ => Err(Error::predefined(INVALID_PARAMS, None)),
    }
}

} // verus!
