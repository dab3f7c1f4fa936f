//! The guard in front of every route but the welcome, login and register
//! pages: a request passes only with a session cookie whose token checks out.
use vstd::prelude::*;

use crate::helpers::response::{
    is_plain_answer, lemma_status_word_codes, response_json, JsonResponse, HTTP_UNAUTHORIZED,
};
use crate::helpers::text::same_text;

verus! {

/// The name of the cookie that carries the session token.
pub open spec fn session_cookie_name_spec() -> Seq<char> {
    "auth_jwt_secret"@
}

/// The name of the cookie that carries the session token.
pub fn session_cookie_name() -> (name: String)
    ensures
        name@ == session_cookie_name_spec(),
{
    String::from_str("auth_jwt_secret")
}

/// The paths that need no session: the welcome page, login and register.
pub open spec fn is_public_path(path: Seq<char>) -> bool {
    ||| path == "/"@
    ||| path == "/login"@
    ||| path == "/register"@
}

/// What the guard does with a request.
pub enum GuardAction {
    /// Hand the request on to the guarded service.
    Forward,
    /// Check the signature and expiry of this session token, then hand the
    /// outcome to `CheckCookieMiddleware::resume`.
    CheckToken(String),
    /// Answer at once with this response; the guarded service never sees
    /// the request.
    Reject(JsonResponse),
}

/// The answer to a request without a session cookie.
pub open spec fn is_missing_cookie_answer(r: JsonResponse) -> bool {
    is_plain_answer(r, "unauthorize"@, "please authorize your self as user"@, Seq::empty())
}

/// The answer to a request whose session token does not check out.
pub open spec fn is_bad_cookie_answer(r: JsonResponse) -> bool {
    is_plain_answer(r, "unauthorize"@, "something went wrong from your cookies"@, Seq::empty())
}

/// What the first look at a request for `path` with the session token
/// `token` does: public paths pass, a request without the cookie is refused,
/// and a token is sent to be checked.
pub open spec fn is_first_look(path: Seq<char>, token: Option<String>, action: GuardAction) -> bool {
    if is_public_path(path) {
        action is Forward
    } else {
        match token {
            None => action matches GuardAction::Reject(r) && is_missing_cookie_answer(r),
            Some(t) => action == GuardAction::CheckToken(t),
        }
    }
}

/// What the second look does once the token was checked: a valid token
/// passes, any other is refused.
pub open spec fn is_second_look(token_valid: bool, action: GuardAction) -> bool {
    if token_valid {
        action is Forward
    } else {
        action matches GuardAction::Reject(r) && is_bad_cookie_answer(r)
    }
}

/// A request reaches the guarded service exactly when its path is public,
/// or it carries a session cookie whose token checks out; a token is checked
/// only for a protected path.
pub proof fn law_guard_forwards_exactly_public_or_valid(
    path: Seq<char>,
    token: Option<String>,
    token_valid: bool,
    first: GuardAction,
    second: GuardAction,
)
    requires
        is_first_look(path, token, first),
        first is CheckToken ==> is_second_look(token_valid, second),
    ensures
        first is CheckToken <==> (!is_public_path(path) && token is Some),
        (first is Forward || (first is CheckToken && second is Forward)) <==> (is_public_path(path)
            || (token is Some && token_valid)),
{
}

/// The factory of the guard: wraps each service it is given.
pub struct CheckCookie;

/// The guard around one service.
pub struct CheckCookieMiddleware<S> {
    service: S,
}

impl CheckCookie {
    /// Wrap `service` in the guard.
    pub fn new_transform<S>(&self, service: S) -> (wrapped: CheckCookieMiddleware<S>)
        ensures
            wrapped.guarded() == service,
    {
        CheckCookieMiddleware { service }
    }
}

impl<S> CheckCookieMiddleware<S> {
    /// The service behind the guard.
    pub closed spec fn guarded(&self) -> S {
        self.service
    }

    /// The service behind the guard, to forward a request to.
    pub fn service(&self) -> (s: &S)
        ensures
            *s == self.guarded(),
    {
        &self.service
    }

    /// First look at a request for `path`, with the value of its session
    /// cookie if it has one: public paths pass, a request without the cookie
    /// is refused, and a token is sent to be checked.
    pub fn call(&self, path: &str, token: Option<String>) -> (action: GuardAction)
        ensures
            is_first_look(path@, token, action),
    {
        if same_text(path, "/") || same_text(path, "/login") || same_text(path, "/register") {
            return GuardAction::Forward;
        }
        match token {
            Some(t) => GuardAction::CheckToken(t),
            None => GuardAction::Reject(
                response_json(
                    String::from_str("unauthorize"),
                    String::from_str("please authorize your self as user"),
                    Vec::new(),
                ),
            ),
        }
    }

    /// Second look, once the token has been checked: a valid token passes,
    /// any other is refused.
    pub fn resume(&self, token_valid: bool) -> (action: GuardAction)
        ensures
            is_second_look(token_valid, action),
    {
        if token_valid {
            GuardAction::Forward
        } else {
            GuardAction::Reject(
                response_json(
                    String::from_str("unauthorize"),
                    String::from_str("something went wrong from your cookies"),
                    Vec::new(),
                ),
            )
        }
    }
}

/// Every refusal of the guard is a 401 answer with an empty `data` array and
/// no cookie.
pub proof fn law_guard_refusals_are_unauthorized(r: JsonResponse)
    requires
        is_missing_cookie_answer(r) || is_bad_cookie_answer(r),
    ensures
        r.code == HTTP_UNAUTHORIZED,
        r.body.data@.len() == 0,
        r.cookie is None,
{
    lemma_status_word_codes();
}

} // verus!
