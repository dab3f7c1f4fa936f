//! The user listing endpoint.
use vstd::prelude::*;

use crate::helpers::response::{is_plain_answer, plain_answer, user_records, users_to_records, JsonResponse};
use crate::structs::auth::DetailUserStruct;

verus! {

/// Get all users: answer with every user, without password hashes.
pub fn get_user(rows: Vec<DetailUserStruct>) -> (r: JsonResponse)
    ensures
        is_plain_answer(r, "success"@, "Successfully retrieved user"@, user_records(rows@)),
{
    let data = users_to_records(&rows);
    plain_answer("success", "Successfully retrieved user", data)
}

} // verus!
