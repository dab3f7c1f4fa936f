//! The todo endpoints, over the in-memory todo list.
use vstd::prelude::*;

use crate::structs::todo::{
    created_todo, first_with_id, page_window, title_taken, updated_todo, QueryOptions, Timestamp,
    Todo, TodoStore, UpdateTodoSchema,
};

verus! {

/// 200 OK
pub const TODO_OK: u16 = 200;
/// 204 No Content
pub const TODO_NO_CONTENT: u16 = 204;
/// 404 Not Found
pub const TODO_NOT_FOUND: u16 = 404;
/// 409 Conflict
pub const TODO_CONFLICT: u16 = 409;

/// The body of a refusal: `data` is always the empty string.
pub struct GenericResponse {
    pub status: String,
    pub message: String,
    pub data: String,
}

/// The `data` of an answer about one todo.
pub struct TodoData {
    pub todo: Todo,
}

/// The body of an answer about one todo.
pub struct SingleTodoResponse {
    pub status: String,
    pub message: String,
    pub data: TodoData,
}

/// The body of an answer with a page of todos; `results` is their number.
pub struct TodoListResponse {
    pub status: String,
    pub message: String,
    pub results: usize,
    pub todos: Vec<Todo>,
}

/// The JSON body of a todo answer, or none.
pub enum TodoBody {
    List(TodoListResponse),
    Single(SingleTodoResponse),
    Generic(GenericResponse),
    Empty,
}

/// A todo answer: its HTTP status code and body.
pub struct TodoReply {
    pub code: u16,
    pub body: TodoBody,
}

/// The page size asked for, 10 by default.
pub open spec fn page_limit(opts: QueryOptions) -> int {
    match opts.limit {
        Some(l) => l as int,
        None => 10,
    }
}

/// The page number asked for, 1 by default.
pub open spec fn page_number(opts: QueryOptions) -> int {
    match opts.page {
        Some(p) => p as int,
        None => 1,
    }
}

/// How many todos come before the page asked for.
pub open spec fn page_offset(opts: QueryOptions) -> int {
    (page_number(opts) - 1) * page_limit(opts)
}

/// `r` is a 200 answer about the todo `t` with this status and message.
pub open spec fn is_single_answer(r: TodoReply, status: Seq<char>, message: Seq<char>, t: Todo) -> bool {
    &&& r.code == TODO_OK
    &&& r.body matches TodoBody::Single(b)
    &&& b.status@ == status
    &&& b.message@ == message
    &&& b.data.todo == t
}

/// `r` is a refusal with this code and message.
pub open spec fn is_refusal(r: TodoReply, code: u16, message: Seq<char>) -> bool {
    &&& r.code == code
    &&& r.body matches TodoBody::Generic(b)
    &&& b.status@ == "ERROR"@
    &&& b.message@ == message
    &&& b.data@ == Seq::<char>::empty()
}

/// The message for an id that no todo carries.
pub open spec fn missing_id_message(id: Seq<char>) -> Seq<char> {
    "Todo with ID: "@ + id + " not found"@
}

/// The message for a title that a todo already carries.
pub open spec fn taken_title_message(title: Seq<char>) -> Seq<char> {
    "Todo with title: '"@ + title + "' already exists"@
}

/// `s` is the text of a version-4 UUID in hyphenated form: 36 characters,
/// hyphens at positions 8, 13, 18 and 23, and the version digit `4` at
/// position 14.
pub open spec fn is_v4_uuid_text(s: Seq<char>) -> bool {
    &&& s.len() == 36
    &&& s[8] == '-' && s[13] == '-' && s[18] == '-' && s[23] == '-'
    &&& s[14] == '4'
}

/// A fresh random id for a new todo, as a hyphenated UUID (version 4).
/// Calls `uuid::Uuid::new_v4` and formats it with `to_string`, which writes
/// the hyphenated lower-case form. Claimed is only the shape of that text;
/// the id is drawn at random, so it is not claimed to differ from the ids
/// already in the list.
#[verifier::external_body]
fn new_todo_id() -> (id: String)
    ensures
        is_v4_uuid_text(id@),
{
    uuid::Uuid::new_v4().to_string()
}

/// The current time in UTC. Calls `chrono::Utc::now` and splits the result
/// into seconds and nanoseconds. It reads the system clock, so nothing is
/// claimed of it.
#[verifier::external_body]
fn current_time() -> Timestamp {
    let now = chrono::Utc::now();
    Timestamp { secs: now.timestamp(), nanos: now.timestamp_subsec_nanos() }
}

fn missing_id_reply(id: &String) -> (r: TodoReply)
    ensures
        is_refusal(r, TODO_NOT_FOUND, missing_id_message(id@)),
{
    let message = String::from_str("Todo with ID: ").concat(id.as_str()).concat(" not found");
    TodoReply {
        code: TODO_NOT_FOUND,
        body: TodoBody::Generic(
            GenericResponse { status: String::from_str("ERROR"), message, data: String::new() },
        ),
    }
}

/// Get one page of the todo list.
pub fn get_todo(store: &TodoStore, opts: QueryOptions) -> (r: TodoReply)
    requires
        page_number(opts) >= 1,
        page_offset(opts) <= usize::MAX,
    ensures
        r.code == TODO_OK,
        r.body matches TodoBody::List(l) && {
            &&& l.status@ == "OK"@
            &&& l.message@ == "Successfully retrieved todos"@
            &&& l.todos@ == page_window(store@, page_offset(opts), page_limit(opts))
            &&& l.todos@ == page_window(
                store@,
                (match opts.page {
                    Some(p) => p as int,
                    None => 1int,
                } - 1) * match opts.limit {
                    Some(n) => n as int,
                    None => 10int,
                },
                match opts.limit {
                    Some(n) => n as int,
                    None => 10int,
                },
            )
            &&& l.results == l.todos@.len()
        },
{
    let limit: usize = match opts.limit {
        Some(l) => l,
        None => 10,
    };
    let page: usize = match opts.page {
        Some(p) => p,
        None => 1,
    };
    let offset: usize = (page - 1) * limit;
    let todos = store.window(offset, limit);
    let results = todos.len();
    TodoReply {
        code: TODO_OK,
        body: TodoBody::List(
            TodoListResponse {
                status: String::from_str("OK"),
                message: String::from_str("Successfully retrieved todos"),
                results,
                todos,
            },
        ),
    }
}

/// Add the todo made from `body` with the id `id` and the time `now` at the
/// end of the list, and answer with it.
pub fn insert_created(store: &mut TodoStore, body: Todo, id: String, now: Timestamp) -> (r: TodoReply)
    ensures
        final(store)@ == old(store)@.push(created_todo(body, id, now)),
        is_single_answer(r, "OK"@, "Successfully created todo"@, created_todo(body, id, now)),
{
    let todo = Todo {
        id: Some(id),
        title: body.title,
        content: body.content,
        completed: Some(false),
        createdAt: Some(now),
        updatedAt: Some(now),
    };
    let copy = todo.duplicate();
    store.push(todo);
    TodoReply {
        code: TODO_OK,
        body: TodoBody::Single(
            SingleTodoResponse {
                status: String::from_str("OK"),
                message: String::from_str("Successfully created todo"),
                data: TodoData { todo: copy },
            },
        ),
    }
}

/// Create a todo, unless its title is taken. The new todo gets a fresh
/// random id and the current time as creation and update time.
pub fn create_todo(store: &mut TodoStore, body: Todo) -> (r: TodoReply)
    ensures
        title_taken(old(store)@, body.title@) ==> {
            &&& final(store)@ == old(store)@
            &&& is_refusal(r, TODO_CONFLICT, taken_title_message(body.title@))
        },
        (forall|j: int| 0 <= j < old(store)@.len() ==> (#[trigger] old(store)@[j]).title@
            != body.title@) ==> final(store)@.len() == old(store)@.len() + 1 && final(store)@.last().title
            == body.title && final(store)@.last().completed == Some(false),
        (exists|j: int| 0 <= j < old(store)@.len() && (#[trigger] old(store)@[j]).title@
            == body.title@) ==> final(store)@ == old(store)@ && r.code == TODO_CONFLICT,
        !title_taken(old(store)@, body.title@) ==> {
            let t = final(store)@.last();
            &&& final(store)@.len() == old(store)@.len() + 1
            &&& final(store)@.drop_last() == old(store)@
            &&& t.id matches Some(id) && t.createdAt matches Some(now)
                && t == created_todo(body, id, now) && is_v4_uuid_text(id@)
            &&& is_single_answer(r, "OK"@, "Successfully created todo"@, t)
        },
{
    if store.has_title(&body.title) {
        let message = String::from_str("Todo with title: '").concat(body.title.as_str()).concat(
            "' already exists",
        );
        return TodoReply {
            code: TODO_CONFLICT,
            body: TodoBody::Generic(
                GenericResponse { status: String::from_str("ERROR"), message, data: String::new() },
            ),
        };
    }
    let id = new_todo_id();
    let now = current_time();
    let ghost before = store@;
    let r = insert_created(store, body, id, now);
    assert(store@.drop_last() == before);
    r
}

/// Find a todo by id.
pub fn find_todo(store: &TodoStore, id: String) -> (r: TodoReply)
    ensures
        match first_with_id(store@, id@) {
            Some(i) => is_single_answer(r, "success"@, "Successfully retrieved todo"@, store@[i]),
            None => is_refusal(r, TODO_NOT_FOUND, missing_id_message(id@)),
        },
{
    match store.position_of(&id) {
        None => missing_id_reply(&id),
        Some(i) => {
            let todo = store.get(i);
            TodoReply {
                code: TODO_OK,
                body: TodoBody::Single(
                    SingleTodoResponse {
                        status: String::from_str("success"),
                        message: String::from_str("Successfully retrieved todo"),
                        data: TodoData { todo },
                    },
                ),
            }
        },
    }
}

/// Replace the todo at position `i` by its update with `body` at time
/// `now`, and answer with the new todo.
pub fn apply_update(store: &mut TodoStore, i: usize, body: UpdateTodoSchema, now: Timestamp) -> (r: TodoReply)
    requires
        i < old(store)@.len(),
    ensures
        final(store)@ == old(store)@.update(i as int, updated_todo(old(store)@[i as int], body, now)),
        is_single_answer(r, "OK"@, "Successfully updated todo"@, updated_todo(old(store)@[i as int], body, now)),
        final(store)@[i as int].completed == match body.completed {
            Some(c) => Some(c),
            None => old(store)@[i as int].completed,
        },
        final(store)@[i as int].id == old(store)@[i as int].id,
        final(store)@[i as int].createdAt == old(store)@[i as int].createdAt,
        final(store)@[i as int].updatedAt == Some(now),
{
    let old_todo = store.get(i);
    let title = match body.title {
        Some(t) => if t.unicode_len() > 0 { t } else { old_todo.title },
        None => old_todo.title,
    };
    let content = match body.content {
        Some(c) => if c.unicode_len() > 0 { c } else { old_todo.content },
        None => old_todo.content,
    };
    let completed = if body.completed.is_some() {
        body.completed
    } else {
        old_todo.completed
    };
    let todo = Todo {
        id: old_todo.id,
        title,
        content,
        completed,
        createdAt: old_todo.createdAt,
        updatedAt: Some(now),
    };
    let copy = todo.duplicate();
    store.replace(i, todo);
    TodoReply {
        code: TODO_OK,
        body: TodoBody::Single(
            SingleTodoResponse {
                status: String::from_str("OK"),
                message: String::from_str("Successfully updated todo"),
                data: TodoData { todo: copy },
            },
        ),
    }
}

/// Update the first todo with the id `id`: texts that are given and not
/// empty replace the old ones, a given `completed` replaces the old one, and
/// the update time becomes the current time.
pub fn update_todo(store: &mut TodoStore, id: String, body: UpdateTodoSchema) -> (r: TodoReply)
    ensures
        match first_with_id(old(store)@, id@) {
            Some(i) => {
                let t = final(store)@[i];
                &&& final(store)@.len() == old(store)@.len()
                &&& t.updatedAt matches Some(now) && t == updated_todo(old(store)@[i], body, now)
                &&& forall|j: int| 0 <= j < old(store)@.len() && j != i ==> final(store)@[j] == old(store)@[j]
                &&& is_single_answer(r, "OK"@, "Successfully updated todo"@, t)
            },
            None => {
                &&& final(store)@ == old(store)@
                &&& is_refusal(r, TODO_NOT_FOUND, missing_id_message(id@))
            },
        },
{
    match store.position_of(&id) {
        None => missing_id_reply(&id),
        Some(i) => {
            let now = current_time();
            apply_update(store, i, body, now)
        },
    }
}

/// Delete every todo with the id `id`; answer 204 with no body, or 404 when
/// no todo has that id.
pub fn delete_todo(store: &mut TodoStore, id: String) -> (r: TodoReply)
    ensures
        match first_with_id(old(store)@, id@) {
            Some(_) => {
                &&& final(store)@ == old(store)@.filter(crate::structs::todo::id_is_not(id@))
                &&& r.code == TODO_NO_CONTENT
                &&& r.body is Empty
            },
            None => {
                &&& final(store)@ == old(store)@
                &&& is_refusal(r, TODO_NOT_FOUND, missing_id_message(id@))
            },
        },
{
    match store.position_of(&id) {
        None => missing_id_reply(&id),
        Some(_) => {
            store.remove_id(&id);
            TodoReply { code: TODO_NO_CONTENT, body: TodoBody::Empty }
        },
    }
}

/// The page asked for starts after `(page - 1) * limit` todos, with the
/// page number and size taken from the request, 1 and 10 when absent.
pub proof fn law_page_offset_of_request(opts: QueryOptions)
    ensures
        page_limit(opts) == match opts.limit {
            Some(l) => l as int,
            None => 10int,
        },
        page_number(opts) == match opts.page {
            Some(p) => p as int,
            None => 1int,
        },
        page_offset(opts) == (match opts.page {
            Some(p) => p as int,
            None => 1int,
        } - 1) * match opts.limit {
            Some(l) => l as int,
            None => 10int,
        },
{
}

/// A refusal is an `ERROR` body with the given code and message and an empty
/// `data` text; an answer about one todo is a 200 with that todo.
pub proof fn law_todo_answer_shapes(r: TodoReply, code: u16, status: Seq<char>, message: Seq<char>, t: Todo)
    ensures
        is_refusal(r, code, message) ==> r.code == code && (r.body matches TodoBody::Generic(b)
            && b.status@ == "ERROR"@ && b.message@ == message && b.data@.len() == 0),
        is_single_answer(r, status, message, t) ==> r.code == 200 && (r.body matches TodoBody::Single(
            b,
        ) && b.status@ == status && b.message@ == message && b.data.todo == t),
{
}

} // verus!
