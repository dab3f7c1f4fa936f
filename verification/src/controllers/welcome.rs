//! The welcome page.
use vstd::prelude::*;

use crate::helpers::response::{is_plain_answer, plain_answer, JsonResponse};

verus! {

/// The name the API goes by when none is configured.
pub open spec fn default_app_name() -> Seq<char> {
    "actix-api"@
}

/// The greeting for an API called `name`.
pub open spec fn greeting(name: Seq<char>) -> Seq<char> {
    "welcome to "@ + name + " API"@
}

/// Welcome route: greets with the configured name of the API, or its default
/// name.
pub fn welcome(app_name: Option<String>) -> (r: JsonResponse)
    ensures
        is_plain_answer(
            r,
            "success"@,
            greeting(
                match app_name {
                    Some(n) => n@,
                    None => default_app_name(),
                },
            ),
            Seq::empty(),
        ),
{
    let name = match app_name {
        Some(n) => n,
        None => String::from_str("actix-api"),
    };
    let message = String::from_str("welcome to ").concat(name.as_str()).concat(" API");
    plain_answer("success", message.as_str(), Vec::new())
}

} // verus!
