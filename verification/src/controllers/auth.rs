//! Login, registration and logout.
use vstd::prelude::*;

use crate::helpers::database::Lookup;
use crate::helpers::response::{
    is_database_error_answer, is_missing_fields_answer, is_plain_answer, lemma_status_word_codes,
    plain_answer, response_json_with_cookie, status_code_of, JsonResponse, Record, HTTP_BAD_REQUEST, HTTP_INTERNAL_SERVER_ERROR,
    SESSION_COOKIE_MAX_AGE,
};
use crate::middlewares::cookie::{session_cookie_name, session_cookie_name_spec};
use crate::structs::auth::{
    ClientRow, Credentials, DetailUserStruct, NewClient, Registration, TokenStruct,
};

verus! {

/// How long a session token is valid: seven days, in seconds.
pub const TOKEN_LIFETIME_SECS: u64 = 604800;

/// What `bcrypt::verify` answers for `password` and the stored hash `hash`:
/// whether they match, or `None` when `hash` is not a bcrypt hash it can
/// read.
pub uninterp spec fn bcrypt_verify_outcome(password: Seq<char>, hash: Seq<char>) -> Option<bool>;

/// Checks `password` against the bcrypt hash `hash` with `bcrypt::verify`
/// (bcrypt 0.15), its error turned into `None`. Claimed: the result is
/// `bcrypt_verify_outcome` of the two texts.
#[verifier::external_body]
fn password_matches(password: &str, hash: &str) -> (verdict: Option<bool>)
    ensures
        verdict == bcrypt_verify_outcome(password@, hash@),
{
    bcrypt::verify(password, hash).ok()
}

/// Hashes `password` with `bcrypt::hash` at `bcrypt::DEFAULT_COST`, its
/// error turned into `None`. The salt is random, so the hash itself is not
/// claimed; claimed is only what the crate's own test `can_verify_own_generated`
/// shows and its source makes plain: `bcrypt::verify` accepts the password
/// against any hash that `bcrypt::hash` made of it, and such a hash is the
/// 60 characters `$2b$12$`, 22 of salt and 31 of digest.
#[verifier::external_body]
fn hash_password(password: &str) -> (hashed: Option<String>)
    ensures
        hashed matches Some(h) ==> bcrypt_verify_outcome(password@, h@) == Some(true) && h@.len()
            == 60,
{
    bcrypt::hash(password, bcrypt::DEFAULT_COST).ok()
}

/// The next move while logging in.
pub enum LoginStep {
    /// Answer with this response; no token is issued.
    Respond(JsonResponse),
    /// Look up the account with this user name, then hand the outcome to
    /// `login_with_account`.
    FindAccount(Credentials),
    /// The password is right: sign `token_claims` of this user at the
    /// current time and answer with `login_success`.
    IssueToken(DetailUserStruct),
}

/// The next move while registering.
pub enum RegisterStep {
    /// Answer with this response; nothing is written.
    Respond(JsonResponse),
    /// Look for an account with the user name of this registration, then
    /// hand the outcome to `register_checked`.
    CheckUsername(Registration),
    /// Insert this row, then answer with `register_done`.
    Insert(NewClient),
}

/// What the API tells about the account `row`.
pub open spec fn detail_of(row: ClientRow) -> DetailUserStruct {
    DetailUserStruct { id: row.id, username: row.username, role: row.role }
}

/// `step` is what login does with the account `row` once the password check
/// said `verdict`.
pub open spec fn is_login_verdict_step(step: LoginStep, row: ClientRow, verdict: Option<bool>) -> bool {
    match verdict {
        Some(true) => step == LoginStep::IssueToken(detail_of(row)),
        Some(false) => step matches LoginStep::Respond(r) && is_plain_answer(
            r,
            "failed"@,
            "Username or password is wrong"@,
            Seq::empty(),
        ),
        None => step matches LoginStep::Respond(r) && is_database_error_answer(r),
    }
}

/// The claims of a session token for `user` issued at `now`: it expires
/// seven days later, or at the largest time a `u64` holds.
pub open spec fn token_claims_of(user: DetailUserStruct, now: u64) -> TokenStruct {
    TokenStruct {
        id: user.id,
        username: user.username,
        role: user.role,
        iat: now,
        exp: if now + TOKEN_LIFETIME_SECS > u64::MAX {
            u64::MAX
        } else {
            (now + TOKEN_LIFETIME_SECS) as u64
        },
    }
}

/// `step` is what registration does once the user name lookup said
/// `existing`, where `hashed` is what hashing the password gave (`None` when
/// it failed): a taken name or a failed lookup is answered at once; for a
/// free name the row holds the name, the role and the hash, or the empty
/// text when hashing failed. A hash the password checks out against is
/// 60 characters long.
pub open spec fn is_register_checked_step(
    reg: Registration,
    existing: Lookup<i32>,
    step: RegisterStep,
    hashed: Option<String>,
) -> bool {
    match existing {
        Lookup::Found(_) => step matches RegisterStep::Respond(r) && is_plain_answer(
            r,
            "failed"@,
            "Username already exists"@,
            Seq::empty(),
        ),
        Lookup::Missing => step matches RegisterStep::Insert(c) && {
            &&& c.username == reg.username
            &&& c.role == reg.role
            &&& c.password@ == match hashed {
                Some(h) => h@,
                None => Seq::<char>::empty(),
            }
            &&& hashed matches Some(h) ==> bcrypt_verify_outcome(reg.password@, h@) == Some(true)
                && h@.len() == 60
        },
        Lookup::Failed => step matches RegisterStep::Respond(r) && is_database_error_answer(r),
    }
}

/// Verify user credentials: both fields are required, then the account is
/// looked up.
pub fn login(creds: Credentials) -> (step: LoginStep)
    ensures
        creds.username@.len() == 0 || creds.password@.len() == 0 ==> (step matches LoginStep::Respond(
            r,
        ) && is_missing_fields_answer(r)),
        creds.username@.len() > 0 && creds.password@.len() > 0 ==> step == LoginStep::FindAccount(
            creds,
        ),
{
    if creds.username.unicode_len() == 0 || creds.password.unicode_len() == 0 {
        LoginStep::Respond(plain_answer("failed", "Please fill all fields", Vec::new()))
    } else {
        LoginStep::FindAccount(creds)
    }
}

/// Login once the password check on the account `row` said `verdict`.
pub fn login_decision(row: ClientRow, verdict: Option<bool>) -> (step: LoginStep)
    ensures
        is_login_verdict_step(step, row, verdict),
{
    match verdict {
        Some(true) => LoginStep::IssueToken(
            DetailUserStruct { id: row.id, username: row.username, role: row.role },
        ),
        Some(false) => LoginStep::Respond(
            plain_answer("failed", "Username or password is wrong", Vec::new()),
        ),
        None => LoginStep::Respond(plain_answer("error", "Something went wrong", Vec::new())),
    }
}

/// Login once the account lookup is done: an unknown user name or a failed
/// lookup is answered at once, otherwise the password is checked against
/// the stored bcrypt hash.
pub fn login_with_account(creds: Credentials, account: Lookup<ClientRow>) -> (step: LoginStep)
    ensures
        match account {
            Lookup::Found(row) => is_login_verdict_step(
                step,
                row,
                bcrypt_verify_outcome(creds.password@, row.password@),
            ),
            Lookup::Missing => step matches LoginStep::Respond(r) && is_plain_answer(
                r,
                "failed"@,
                "Account not found"@,
                Seq::empty(),
            ),
            Lookup::Failed => step matches LoginStep::Respond(r) && is_database_error_answer(r),
        },
{
    match account {
        Lookup::Found(row) => {
            let verdict = password_matches(creds.password.as_str(), row.password.as_str());
            login_decision(row, verdict)
        },
        Lookup::Missing => LoginStep::Respond(plain_answer("failed", "Account not found", Vec::new())),
        Lookup::Failed => LoginStep::Respond(plain_answer("error", "Something went wrong", Vec::new())),
    }
}

/// The claims of the session token for `user`, issued at `now` (seconds
/// since the Unix epoch).
pub fn token_claims(user: &DetailUserStruct, now: u64) -> (claims: TokenStruct)
    ensures
        claims == token_claims_of(*user, now),
{
    TokenStruct {
        id: user.id,
        username: user.username.clone(),
        role: user.role.clone(),
        iat: now,
        exp: now.saturating_add(TOKEN_LIFETIME_SECS),
    }
}

/// The successful login answer: the user as data, and the signed token set
/// as the session cookie for seven days (an empty cookie value when signing
/// failed).
pub fn login_success(user: DetailUserStruct, token: Option<String>) -> (r: JsonResponse)
    ensures
        r.code == status_code_of("success"@),
        r.body.status@ == "success"@,
        r.body.message@ == "Successfully logged in"@,
        r.body.data@ == seq![Record::User(user)],
        r.cookie matches Some(c) && {
            &&& c.name@ == session_cookie_name_spec()
            &&& c.value@ == match token {
                Some(t) => t@,
                None => Seq::<char>::empty(),
            }
            &&& c.max_age_secs == SESSION_COOKIE_MAX_AGE
            &&& c.secure && !c.http_only && c.same_site_strict
        },
{
    let value = match token {
        Some(t) => t,
        None => String::new(),
    };
    let mut data: Vec<Record> = Vec::new();
    data.push(Record::User(user));
    proof {
        reveal_strlit("set");
    }
    response_json_with_cookie(
        String::from_str("success"),
        String::from_str("Successfully logged in"),
        data,
        String::from_str("set"),
        session_cookie_name(),
        value,
    )
}

/// Register new user: user name, password and role are all required, then
/// the user name is looked up.
pub fn register(reg: Registration) -> (step: RegisterStep)
    ensures
        reg.username@.len() == 0 || reg.password@.len() == 0 || reg.role@.len() == 0 ==> (
        step matches RegisterStep::Respond(r) && is_missing_fields_answer(r)),
        reg.username@.len() > 0 && reg.password@.len() > 0 && reg.role@.len() > 0 ==> step
            == RegisterStep::CheckUsername(reg),
{
    if reg.username.unicode_len() == 0 || reg.password.unicode_len() == 0 || reg.role.unicode_len()
        == 0 {
        RegisterStep::Respond(plain_answer("failed", "Please fill all fields", Vec::new()))
    } else {
        RegisterStep::CheckUsername(reg)
    }
}

/// The row to insert for `reg` given the outcome of hashing its password:
/// the hash, or the empty text when hashing failed.
pub fn register_insert(reg: Registration, hashed: Option<String>) -> (step: RegisterStep)
    ensures
        step matches RegisterStep::Insert(c) && {
            &&& c.username == reg.username
            &&& c.role == reg.role
            &&& c.password@ == match hashed {
                Some(h) => h@,
                None => Seq::<char>::empty(),
            }
        },
{
    let password = match hashed {
        Some(h) => h,
        None => String::new(),
    };
    RegisterStep::Insert(NewClient { username: reg.username, password, role: reg.role })
}

/// Registration once the user name lookup is done: a taken name is refused,
/// a failed lookup is an error, otherwise the password is hashed and the row
/// inserted. Beside the step comes what hashing gave, for the proofs.
pub fn register_checked(reg: Registration, existing: Lookup<i32>) -> (res: (
    RegisterStep,
    Ghost<Option<String>>,
))
    ensures
        is_register_checked_step(reg, existing, res.0, res.1@),
        !(existing is Missing) ==> res.1@ is None,
{
    match existing {
        Lookup::Found(_) => (
            RegisterStep::Respond(plain_answer("failed", "Username already exists", Vec::new())),
            Ghost(None),
        ),
        Lookup::Missing => {
            let hashed = hash_password(reg.password.as_str());
            let ghost outcome = hashed;
            (register_insert(reg, hashed), Ghost(outcome))
        },
        Lookup::Failed => (
            RegisterStep::Respond(plain_answer("error", "Something went wrong", Vec::new())),
            Ghost(None),
        ),
    }
}

/// Registration once the insert is done: the stored user, or the error
/// answer when the insert failed.
pub fn register_done(inserted: Option<DetailUserStruct>) -> (r: JsonResponse)
    ensures
        match inserted {
            Some(u) => is_plain_answer(r, "success"@, "Successfully registered"@, seq![Record::User(u)]),
            None => is_database_error_answer(r),
        },
{
    match inserted {
        Some(u) => {
            let mut data: Vec<Record> = Vec::new();
            data.push(Record::User(u));
            plain_answer("success", "Successfully registered", data)
        },
        None => plain_answer("error", "Something went wrong", Vec::new()),
    }
}

/// Logout user: clears the session cookie (an empty value that expires at
/// once).
pub fn logout() -> (r: JsonResponse)
    ensures
        has_answer_head(r, "success"@, "Successfully logged in"@),
        r.cookie matches Some(c) && {
            &&& c.name@ == session_cookie_name_spec()
            &&& c.value@ == Seq::<char>::empty()
            &&& c.max_age_secs == 0
            &&& c.secure && !c.http_only && c.same_site_strict
        },
{
    proof {
        reveal_strlit("remove");
        reveal_strlit("set");
    }
    response_json_with_cookie(
        String::from_str("success"),
        String::from_str("Successfully logged in"),
        Vec::new(),
        String::from_str("remove"),
        session_cookie_name(),
        String::new(),
    )
}

/// `r` has this status word and message, an empty `data` array, and the
/// code the word selects.
pub open spec fn has_answer_head(r: JsonResponse, status: Seq<char>, message: Seq<char>) -> bool {
    &&& r.code == status_code_of(status)
    &&& r.body.status@ == status
    &&& r.body.message@ == message
    &&& r.body.data@ == Seq::<Record>::empty()
}

/// A user stored by a registration logs in with the password it registered
/// with, unless hashing failed (then an empty hash was stored, which no
/// password checks out against).
pub proof fn law_registered_user_can_log_in(
    reg: Registration,
    stored: NewClient,
    hashed: Option<String>,
    row: ClientRow,
    creds: Credentials,
    step: LoginStep,
)
    requires
        is_register_checked_step(reg, Lookup::Missing, RegisterStep::Insert(stored), hashed),
        hashed is Some,
        row.username == stored.username,
        row.password@ == stored.password@,
        row.role == stored.role,
        creds.password@ == reg.password@,
        is_login_verdict_step(step, row, bcrypt_verify_outcome(creds.password@, row.password@)),
    ensures
        step == LoginStep::IssueToken(
            DetailUserStruct { id: row.id, username: reg.username, role: reg.role },
        ),
{
}

/// What login answers never shows a password or a password hash: a refusal
/// carries no data, a password the stored hash rejects is refused as wrong,
/// and a successful login yields only the id, user name and role of the
/// account, which with the two times are all the token claims hold.
pub proof fn law_login_reveals_no_secret(row: ClientRow, verdict: Option<bool>, step: LoginStep, now: u64)
    requires
        is_login_verdict_step(step, row, verdict),
    ensures
        step matches LoginStep::Respond(r) ==> r.body.data@.len() == 0 && r.cookie is None,
        verdict is None ==> (step matches LoginStep::Respond(r) && r.code
            == HTTP_INTERNAL_SERVER_ERROR && r.body.message@ == "Something went wrong"@),
        verdict == Some(true) ==> step == LoginStep::IssueToken(
            DetailUserStruct { id: row.id, username: row.username, role: row.role },
        ),
        verdict == Some(false) ==> (step matches LoginStep::Respond(r) && r.code == HTTP_BAD_REQUEST
            && r.body.message@ == "Username or password is wrong"@),
        step matches LoginStep::IssueToken(u) ==> u == detail_of(row) && token_claims_of(u, now)
            == (TokenStruct {
            id: row.id,
            username: row.username,
            role: row.role,
            iat: now,
            exp: token_claims_of(u, now).exp,
        }),
{
    lemma_status_word_codes();
}

/// Registration never makes a second account with a taken user name: when
/// the names in the table are pairwise distinct and the lookup found no row
/// only if none has the name, the table with the inserted row added still
/// has pairwise distinct names. Any other step inserts nothing.
pub proof fn law_register_keeps_usernames_distinct(
    names: Seq<Seq<char>>,
    reg: Registration,
    existing: Lookup<i32>,
    step: RegisterStep,
    hashed: Option<String>,
)
    requires
        forall|a: int, b: int| 0 <= a < b < names.len() ==> names[a] != names[b],
        existing is Missing ==> !names.contains(reg.username@),
        is_register_checked_step(reg, existing, step, hashed),
    ensures
        step matches RegisterStep::Insert(c) ==> {
            let after = names.push(c.username@);
            forall|a: int, b: int| 0 <= a < b < after.len() ==> after[a] != after[b]
        },
{
    if let RegisterStep::Insert(c) = step {
        let after = names.push(c.username@);
        assert forall|a: int, b: int| 0 <= a < b < after.len() implies after[a] != after[b] by {
            if b == names.len() {
                assert(names[a] == after[a]);
                if names[a] == reg.username@ {
                    assert(names.contains(reg.username@));
                }
            }
        }
    }
}

/// A session token is issued at the time given and never expires before
/// it; it lives exactly seven days unless that would pass the largest time
/// a `u64` holds.
pub proof fn law_token_lifetime(user: DetailUserStruct, now: u64)
    ensures
        token_claims_of(user, now).iat == now,
        token_claims_of(user, now).exp >= now,
        now <= u64::MAX - TOKEN_LIFETIME_SECS ==> token_claims_of(user, now).exp == now
            + TOKEN_LIFETIME_SECS,
        token_claims_of(user, now).id == user.id,
        token_claims_of(user, now).username == user.username,
        token_claims_of(user, now).role == user.role,
{
}

} // verus!
