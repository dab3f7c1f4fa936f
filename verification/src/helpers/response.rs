//! The JSON envelope `{status, message, data}` that every endpoint answers
//! with, the HTTP status code its status word selects, and the session cookie
//! an answer may set or clear.
use vstd::prelude::*;

use crate::helpers::text::{ascii_lower_code, matches_word, spells_word};
use crate::structs::auth::DetailUserStruct;
use crate::structs::product::ProductStruct;
use crate::structs::spare_part::SparePartStruct;

verus! {

/// 200 OK
pub const HTTP_OK: u16 = 200;
/// 202 Accepted: the code of a status word this API does not know.
pub const HTTP_ACCEPTED: u16 = 202;
/// 400 Bad Request
pub const HTTP_BAD_REQUEST: u16 = 400;
/// 401 Unauthorized
pub const HTTP_UNAUTHORIZED: u16 = 401;
/// 403 Forbidden
pub const HTTP_FORBIDDEN: u16 = 403;
/// 404 Not Found
pub const HTTP_NOT_FOUND: u16 = 404;
/// 500 Internal Server Error
pub const HTTP_INTERNAL_SERVER_ERROR: u16 = 500;

/// Seconds a session cookie lives once set: seven days.
pub const SESSION_COOKIE_MAX_AGE: i64 = 604800;

/// One element of the `data` array of an answer.
pub enum Record {
    Product(ProductStruct),
    /// A nested array of products.
    ProductBatch(Vec<ProductStruct>),
    SparePart(SparePartStruct),
    /// A nested array of spare parts.
    SparePartBatch(Vec<SparePartStruct>),
    User(DetailUserStruct),
    /// The object `{"path": .., "method": ..}` of a request no route took.
    Route { path: String, method: String },
}

/// The body of every answer.
pub struct ResponseStruct {
    pub status: String,
    pub message: String,
    pub data: Vec<Record>,
}

/// A cookie to attach to an answer. It is always `Secure`, never `HttpOnly`
/// and `SameSite=Strict`; `max_age_secs` is its `Max-Age`.
pub struct CookieSpec {
    pub name: String,
    pub value: String,
    pub max_age_secs: i64,
    pub secure: bool,
    pub http_only: bool,
    pub same_site_strict: bool,
}

/// An answer: its HTTP status code, its JSON body (sent with the content
/// type `application/json`) and the cookie it carries, if any.
pub struct JsonResponse {
    pub code: u16,
    pub body: ResponseStruct,
    pub cookie: Option<CookieSpec>,
}

/// The HTTP status code that a status word selects, the word compared
/// without regard to the case of its letters.
pub open spec fn status_code_of(status: Seq<char>) -> u16 {
    if spells_word(status, "success"@) {
        HTTP_OK
    } else if spells_word(status, "error"@) {
        HTTP_INTERNAL_SERVER_ERROR
    } else if spells_word(status, "failed"@) {
        HTTP_BAD_REQUEST
    } else if spells_word(status, "unauthorize"@) {
        HTTP_UNAUTHORIZED
    } else if spells_word(status, "forbidden"@) {
        HTTP_FORBIDDEN
    } else if spells_word(status, "not found"@) {
        HTTP_NOT_FOUND
    } else {
        HTTP_ACCEPTED
    }
}

/// The cookie that the cookie word `kind` asks for: `set` gives a cookie
/// that lives seven days, `remove` one that expires at once (which makes the
/// browser drop it), any other word none.
pub open spec fn cookie_for(kind: Seq<char>, name: String, value: String) -> Option<CookieSpec> {
    if spells_word(kind, "set"@) {
        Some(
            CookieSpec {
                name,
                value,
                max_age_secs: SESSION_COOKIE_MAX_AGE,
                secure: true,
                http_only: false,
                same_site_strict: true,
            },
        )
    } else if spells_word(kind, "remove"@) {
        Some(
            CookieSpec {
                name,
                value,
                max_age_secs: 0,
                secure: true,
                http_only: false,
                same_site_strict: true,
            },
        )
    } else {
        None
    }
}

/// `r` is the answer with this status word, message and data and no cookie.
pub open spec fn is_plain_answer(
    r: JsonResponse,
    status: Seq<char>,
    message: Seq<char>,
    data: Seq<Record>,
) -> bool {
    &&& r.code == status_code_of(status)
    &&& r.body.status@ == status
    &&& r.body.message@ == message
    &&& r.body.data@ == data
    &&& r.cookie is None
}

/// The answer to a request that leaves a required field empty.
pub open spec fn is_missing_fields_answer(r: JsonResponse) -> bool {
    is_plain_answer(r, "failed"@, "Please fill all fields"@, Seq::empty())
}

/// The answer when the database failed.
pub open spec fn is_database_error_answer(r: JsonResponse) -> bool {
    is_plain_answer(r, "error"@, "Something went wrong"@, Seq::empty())
}

/// Set status code for response.
pub fn setup_code(status: String) -> (code: u16)
    ensures
        code == status_code_of(status@),
{
    let s = status.as_str();
    if matches_word(s, "success") {
        HTTP_OK
    } else if matches_word(s, "error") {
        HTTP_INTERNAL_SERVER_ERROR
    } else if matches_word(s, "failed") {
        HTTP_BAD_REQUEST
    } else if matches_word(s, "unauthorize") {
        HTTP_UNAUTHORIZED
    } else if matches_word(s, "forbidden") {
        HTTP_FORBIDDEN
    } else if matches_word(s, "not found") {
        HTTP_NOT_FOUND
    } else {
        HTTP_ACCEPTED
    }
}

/// Create a response template.
pub fn response_json(status: String, message: String, data: Vec<Record>) -> (res: JsonResponse)
    ensures
        res.code == status_code_of(status@),
        res.body == (ResponseStruct { status, message, data }),
        res.cookie is None,
{
    let code = setup_code(status.clone());
    JsonResponse { code, body: ResponseStruct { status, message, data }, cookie: None }
}

/// Create a response template with cookie.
pub fn response_json_with_cookie(
    status: String,
    message: String,
    data: Vec<Record>,
    cookie_type: String,
    cookie_title: String,
    cookie_value: String,
) -> (res: JsonResponse)
    ensures
        res.code == status_code_of(status@),
        res.body == (ResponseStruct { status, message, data }),
        res.cookie == cookie_for(cookie_type@, cookie_title, cookie_value),
{
    let code = setup_code(status.clone());
    let kind = cookie_type.as_str();
    let cookie = if matches_word(kind, "set") {
        Some(
            CookieSpec {
                name: cookie_title,
                value: cookie_value,
                max_age_secs: SESSION_COOKIE_MAX_AGE,
                secure: true,
                http_only: false,
                same_site_strict: true,
            },
        )
    } else if matches_word(kind, "remove") {
        Some(
            CookieSpec {
                name: cookie_title,
                value: cookie_value,
                max_age_secs: 0,
                secure: true,
                http_only: false,
                same_site_strict: true,
            },
        )
    } else {
        None
    };
    JsonResponse { code, body: ResponseStruct { status, message, data }, cookie }
}

/// The products as elements of the `data` array, in order.
pub open spec fn product_records(rows: Seq<ProductStruct>) -> Seq<Record> {
    rows.map_values(|p: ProductStruct| Record::Product(p))
}

/// The spare parts as elements of the `data` array, in order.
pub open spec fn spare_part_records(rows: Seq<SparePartStruct>) -> Seq<Record> {
    rows.map_values(|p: SparePartStruct| Record::SparePart(p))
}

/// The users as elements of the `data` array, in order.
pub open spec fn user_records(rows: Seq<DetailUserStruct>) -> Seq<Record> {
    rows.map_values(|u: DetailUserStruct| Record::User(u))
}

/// Turn product rows into `data` elements.
pub fn products_to_records(rows: &Vec<ProductStruct>) -> (out: Vec<Record>)
    ensures
        out@ == product_records(rows@),
{
    let mut out: Vec<Record> = Vec::new();
    let n = rows.len();
    let mut i: usize = 0;
    while i < n
        invariant
            n == rows@.len(),
            i <= n,
            out@ == product_records(rows@.take(i as int)),
        decreases n - i,
    {
        out.push(Record::Product(rows[i].duplicate()));
        assert(rows@.take(i + 1) == rows@.take(i as int).push(rows@[i as int]));
        i = i + 1;
    }
    assert(rows@.take(n as int) == rows@);
    out
}

/// Turn spare part rows into `data` elements.
pub fn spare_parts_to_records(rows: &Vec<SparePartStruct>) -> (out: Vec<Record>)
    ensures
        out@ == spare_part_records(rows@),
{
    let mut out: Vec<Record> = Vec::new();
    let n = rows.len();
    let mut i: usize = 0;
    while i < n
        invariant
            n == rows@.len(),
            i <= n,
            out@ == spare_part_records(rows@.take(i as int)),
        decreases n - i,
    {
        out.push(Record::SparePart(rows[i].duplicate()));
        assert(rows@.take(i + 1) == rows@.take(i as int).push(rows@[i as int]));
        i = i + 1;
    }
    assert(rows@.take(n as int) == rows@);
    out
}

/// Turn user rows into `data` elements.
pub fn users_to_records(rows: &Vec<DetailUserStruct>) -> (out: Vec<Record>)
    ensures
        out@ == user_records(rows@),
{
    let mut out: Vec<Record> = Vec::new();
    let n = rows.len();
    let mut i: usize = 0;
    while i < n
        invariant
            n == rows@.len(),
            i <= n,
            out@ == user_records(rows@.take(i as int)),
        decreases n - i,
    {
        out.push(Record::User(rows[i].duplicate()));
        assert(rows@.take(i + 1) == rows@.take(i as int).push(rows@[i as int]));
        i = i + 1;
    }
    assert(rows@.take(n as int) == rows@);
    out
}

/// The answer with this status word, message and data, and no cookie.
pub fn plain_answer(status: &str, message: &str, data: Vec<Record>) -> (r: JsonResponse)
    ensures
        is_plain_answer(r, status@, message@, data@),
{
    response_json(String::from_str(status), String::from_str(message), data)
}

/// The six status words, written in lower case, select their codes.
pub proof fn lemma_status_word_codes()
    ensures
        status_code_of("success"@) == HTTP_OK,
        status_code_of("error"@) == HTTP_INTERNAL_SERVER_ERROR,
        status_code_of("failed"@) == HTTP_BAD_REQUEST,
        status_code_of("unauthorize"@) == HTTP_UNAUTHORIZED,
        status_code_of("forbidden"@) == HTTP_FORBIDDEN,
        status_code_of("not found"@) == HTTP_NOT_FOUND,
{
    reveal_strlit("success");
    reveal_strlit("error");
    reveal_strlit("failed");
    reveal_strlit("unauthorize");
    reveal_strlit("forbidden");
    reveal_strlit("not found");
    assert(!spells_word("not found"@, "forbidden"@)) by {
        assert(ascii_lower_code("not found"@[0]) != "forbidden"@[0] as u32);
    }
}

/// Two status words that differ only in the case of ASCII letters select
/// the same HTTP status code.
pub proof fn law_status_code_ignores_case(a: Seq<char>, b: Seq<char>)
    requires
        a.len() == b.len(),
        forall|i: int| 0 <= i < a.len() ==> ascii_lower_code(#[trigger] a[i]) == ascii_lower_code(b[i]),
    ensures
        status_code_of(a) == status_code_of(b),
{
    assert forall|w: Seq<char>| spells_word(a, w) == spells_word(b, w) by {
        if spells_word(a, w) {
            assert forall|i: int| 0 <= i < b.len() implies ascii_lower_code(#[trigger] b[i]) == w[i] as u32 by {
                assert(ascii_lower_code(a[i]) == w[i] as u32);
            }
        }
        if spells_word(b, w) {
            assert forall|i: int| 0 <= i < a.len() implies ascii_lower_code(#[trigger] a[i]) == w[i] as u32 by {
                assert(ascii_lower_code(b[i]) == w[i] as u32);
            }
        }
    }
}

/// The `data` of a listing holds one element per row, in order, each the
/// row itself, unchanged.
pub proof fn law_records_are_the_rows(
    products: Seq<ProductStruct>,
    parts: Seq<SparePartStruct>,
    users: Seq<DetailUserStruct>,
)
    ensures
        product_records(products).len() == products.len(),
        forall|i: int|
            0 <= i < products.len() ==> #[trigger] product_records(products)[i] == Record::Product(
                products[i],
            ),
        spare_part_records(parts).len() == parts.len(),
        forall|i: int|
            0 <= i < parts.len() ==> #[trigger] spare_part_records(parts)[i] == Record::SparePart(
                parts[i],
            ),
        user_records(users).len() == users.len(),
        forall|i: int| 0 <= i < users.len() ==> #[trigger] user_records(users)[i] == Record::User(users[i]),
{
}

/// A plain answer is pinned down whole: the code its status word selects,
/// that word, the message, the data, and no cookie.
pub proof fn law_plain_answer_is_exact(r: JsonResponse, status: Seq<char>, message: Seq<char>, data: Seq<Record>)
    ensures
        is_plain_answer(r, status, message, data) <==> (r.code == status_code_of(status)
            && r.body.status@ == status && r.body.message@ == message && r.body.data@ == data
            && r.cookie is None),
{
}

/// The cookie word `set` gives a cookie with the given name and value that
/// lives seven days, `remove` one that expires at once, any other word
/// none; a cookie is always `Secure`, not `HttpOnly`, `SameSite=Strict`.
pub proof fn law_cookie_words(kind: Seq<char>, name: String, value: String)
    ensures
        spells_word(kind, "set"@) ==> (cookie_for(kind, name, value) matches Some(c) && c.name == name
            && c.value == value && c.max_age_secs == 604800 && c.secure && !c.http_only
            && c.same_site_strict),
        spells_word(kind, "remove"@) ==> (cookie_for(kind, name, value) matches Some(c) && c.name
            == name && c.value == value && c.max_age_secs == 0 && c.secure && !c.http_only
            && c.same_site_strict),
        !spells_word(kind, "set"@) && !spells_word(kind, "remove"@) ==> cookie_for(
            kind,
            name,
            value,
        ) is None,
{
    reveal_strlit("set");
    reveal_strlit("remove");
    if spells_word(kind, "remove"@) {
        assert(!spells_word(kind, "set"@));
    }
}

/// A status word selects 202 exactly when it spells none of the six words
/// this API knows, and otherwise the code of the word it spells.
pub proof fn law_status_codes(s: Seq<char>)
    ensures
        status_code_of(s) == HTTP_ACCEPTED <==> (!spells_word(s, "success"@) && !spells_word(
            s,
            "error"@,
        ) && !spells_word(s, "failed"@) && !spells_word(s, "unauthorize"@) && !spells_word(
            s,
            "forbidden"@,
        ) && !spells_word(s, "not found"@)),
        spells_word(s, "success"@) ==> status_code_of(s) == 200,
        spells_word(s, "error"@) ==> status_code_of(s) == 500,
        spells_word(s, "failed"@) ==> status_code_of(s) == 400,
        spells_word(s, "unauthorize"@) ==> status_code_of(s) == 401,
        spells_word(s, "forbidden"@) ==> status_code_of(s) == 403,
        spells_word(s, "not found"@) ==> status_code_of(s) == 404,
{
    reveal_strlit("success");
    reveal_strlit("error");
    reveal_strlit("failed");
    reveal_strlit("unauthorize");
    reveal_strlit("forbidden");
    reveal_strlit("not found");
    if spells_word(s, "not found"@) {
        assert(!spells_word(s, "forbidden"@)) by {
            assert(ascii_lower_code(s[0]) == "not found"@[0] as u32);
        }
    }
}

} // verus!
