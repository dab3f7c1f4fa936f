//! The answer to requests that no route takes.
use vstd::prelude::*;

use crate::helpers::response::{is_plain_answer, plain_answer, JsonResponse, Record};

verus! {

/// Default route for all routes that are not defined: "not found", with the
/// path and method of the request as data.
pub fn fallback(path: String, method: String) -> (r: JsonResponse)
    ensures
        is_plain_answer(r, "not found"@, "Path not found"@, seq![Record::Route { path, method }]),
{
    let mut data: Vec<Record> = Vec::new();
    data.push(Record::Route { path, method });
    plain_answer("not found", "Path not found", data)
}

} // verus!
