use actix_api::controllers::auth::{
    login, login_decision, login_success, login_with_account, logout, register, register_checked,
    register_done, register_insert, token_claims, LoginStep, RegisterStep,
};
use actix_api::helpers::database::Lookup;
use actix_api::helpers::response::{JsonResponse, Record};
use actix_api::structs::auth::{ClientRow, Credentials, DetailUserStruct, Registration};

fn s(x: &str) -> String {
    x.to_string()
}

fn creds(u: &str, p: &str) -> Credentials {
    Credentials { username: s(u), password: s(p) }
}

fn reg(u: &str, p: &str, r: &str) -> Registration {
    Registration { username: s(u), password: s(p), role: s(r) }
}

fn answer(r: &JsonResponse) -> (u16, &str, &str, usize) {
    (r.code, r.body.status.as_str(), r.body.message.as_str(), r.body.data.len())
}

fn responded(step: LoginStep) -> JsonResponse {
    match step {
        LoginStep::Respond(r) => r,
        _ => panic!("expected an answer"),
    }
}

/// Runs the registration to its insert and returns the stored hash.
fn stored_hash(u: &str, p: &str) -> String {
    match register_checked(reg(u, p, "admin"), Lookup::Missing).0 {
        RegisterStep::Insert(c) => {
            assert_eq!(c.username, u);
            assert_eq!(c.role, "admin");
            c.password
        }
        _ => panic!("expected an insert"),
    }
}

#[test]
fn login_needs_both_fields() {
    for (u, p) in [("", "x"), ("x", ""), ("", "")] {
        let r = responded(login(creds(u, p)));
        assert_eq!(answer(&r), (400, "failed", "Please fill all fields", 0));
    }
    match login(creds("ann", "pw")) {
        LoginStep::FindAccount(c) => {
            assert_eq!(c.username, "ann");
            assert_eq!(c.password, "pw");
        }
        _ => panic!("expected a lookup"),
    }
}

#[test]
fn login_unknown_account_and_failed_lookup() {
    let r = responded(login_with_account(creds("ann", "pw"), Lookup::Missing));
    assert_eq!(answer(&r), (400, "failed", "Account not found", 0));
    let r = responded(login_with_account(creds("ann", "pw"), Lookup::Failed));
    assert_eq!(answer(&r), (500, "error", "Something went wrong", 0));
}

#[test]
fn registered_password_logs_in_and_wrong_one_does_not() {
    let hash = stored_hash("ann", "hunter2");
    assert!(hash.starts_with("$2b$12$"));
    assert_eq!(hash.len(), 60);
    assert_ne!(hash, "hunter2");
    let row = |h: &str| ClientRow { id: 7, username: s("ann"), password: s(h), role: s("admin") };
    match login_with_account(creds("ann", "hunter2"), Lookup::Found(row(&hash))) {
        LoginStep::IssueToken(u) => {
            assert_eq!(u.id, 7);
            assert_eq!(u.username, "ann");
            assert_eq!(u.role, "admin");
        }
        _ => panic!("the registered password should log in"),
    }
    let r = responded(login_with_account(creds("ann", "hunter3"), Lookup::Found(row(&hash))));
    assert_eq!(answer(&r), (400, "failed", "Username or password is wrong", 0));
    let r = responded(login_with_account(creds("ann", "hunter2"), Lookup::Found(row("not a hash"))));
    assert_eq!(answer(&r), (500, "error", "Something went wrong", 0));
}

#[test]
fn login_decision_on_each_verdict() {
    let row = || ClientRow { id: 1, username: s("u"), password: s("h"), role: s("r") };
    assert!(matches!(login_decision(row(), Some(true)), LoginStep::IssueToken(u) if u.id == 1 && u.username == "u" && u.role == "r"));
    assert_eq!(answer(&responded(login_decision(row(), Some(false)))).1, "failed");
    assert_eq!(answer(&responded(login_decision(row(), None))).0, 500);
}

#[test]
fn token_lives_seven_days_and_saturates() {
    let u = DetailUserStruct { id: 3, username: s("ann"), role: s("admin") };
    let t = token_claims(&u, 1_000);
    assert_eq!((t.id, t.username.as_str(), t.role.as_str(), t.iat, t.exp), (3, "ann", "admin", 1_000, 605_800));
    let late = token_claims(&u, u64::MAX - 10);
    assert_eq!(late.exp, u64::MAX);
}

#[test]
fn login_success_sets_the_session_cookie() {
    let u = DetailUserStruct { id: 3, username: s("ann"), role: s("admin") };
    let r = login_success(u, Some(s("tok")));
    assert_eq!(answer(&r), (200, "success", "Successfully logged in", 1));
    assert!(matches!(&r.body.data[0], Record::User(u) if u.id == 3));
    let c = r.cookie.expect("a cookie");
    assert_eq!((c.name.as_str(), c.value.as_str(), c.max_age_secs), ("auth_jwt_secret", "tok", 604800));
    let u = DetailUserStruct { id: 3, username: s("ann"), role: s("admin") };
    let c = login_success(u, None).cookie.expect("a cookie");
    assert_eq!(c.value, "");
}

#[test]
fn logout_clears_the_cookie() {
    let r = logout();
    assert_eq!(answer(&r), (200, "success", "Successfully logged in", 0));
    let c = r.cookie.expect("a cookie");
    assert_eq!((c.name.as_str(), c.value.as_str(), c.max_age_secs), ("auth_jwt_secret", "", 0));
    assert!(c.secure && !c.http_only && c.same_site_strict);
}

#[test]
fn register_needs_all_fields() {
    for (u, p, r) in [("", "p", "r"), ("u", "", "r"), ("u", "p", "")] {
        match register(reg(u, p, r)) {
            RegisterStep::Respond(a) => assert_eq!(answer(&a), (400, "failed", "Please fill all fields", 0)),
            _ => panic!("expected an answer"),
        }
    }
    assert!(matches!(register(reg("u", "p", "r")), RegisterStep::CheckUsername(x) if x.username == "u"));
}

#[test]
fn register_refuses_taken_names_and_failed_lookups() {
    match register_checked(reg("u", "p", "r"), Lookup::Found(4)).0 {
        RegisterStep::Respond(a) => assert_eq!(answer(&a), (400, "failed", "Username already exists", 0)),
        _ => panic!("expected an answer"),
    }
    match register_checked(reg("u", "p", "r"), Lookup::Failed).0 {
        RegisterStep::Respond(a) => assert_eq!(answer(&a), (500, "error", "Something went wrong", 0)),
        _ => panic!("expected an answer"),
    }
}

#[test]
fn register_insert_stores_the_hash_or_nothing() {
    match register_insert(reg("u", "p", "r"), Some(s("$2b$h"))) {
        RegisterStep::Insert(c) => assert_eq!((c.username.as_str(), c.password.as_str(), c.role.as_str()), ("u", "$2b$h", "r")),
        _ => panic!("expected an insert"),
    }
    match register_insert(reg("u", "p", "r"), None) {
        RegisterStep::Insert(c) => assert_eq!(c.password, ""),
        _ => panic!("expected an insert"),
    }
}

#[test]
fn register_done_reports_the_user_or_the_error() {
    let r = register_done(Some(DetailUserStruct { id: 9, username: s("u"), role: s("r") }));
    assert_eq!(answer(&r), (200, "success", "Successfully registered", 1));
    let r = register_done(None);
    assert_eq!(answer(&r), (500, "error", "Something went wrong", 0));
}
