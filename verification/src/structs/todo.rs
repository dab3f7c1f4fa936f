//! The todo list kept in memory, and the operations on it.
use vstd::prelude::*;

verus! {

broadcast use vstd::seq_lib::group_seq_properties;

/// A point in time: whole seconds since the Unix epoch and the nanoseconds
/// past that second (above a billion only inside a leap second).
#[derive(Clone, Copy)]
pub struct Timestamp {
    pub secs: i64,
    pub nanos: u32,
}

/// One entry of the todo list.
#[allow(non_snake_case)]
pub struct Todo {
    pub id: Option<String>,
    pub title: String,
    pub content: String,
    pub completed: Option<bool>,
    pub createdAt: Option<Timestamp>,
    pub updatedAt: Option<Timestamp>,
}

/// The fields a client may change in a todo; an absent or empty text keeps
/// the old one.
pub struct UpdateTodoSchema {
    pub title: Option<String>,
    pub content: Option<String>,
    pub completed: Option<bool>,
}

/// Paging of the todo list: `page` counts from 1 and `limit` is the page
/// size; they default to 1 and 10.
pub struct QueryOptions {
    pub page: Option<usize>,
    pub limit: Option<usize>,
}

/// `t` carries the id `id`.
pub open spec fn has_todo_id(t: Todo, id: Seq<char>) -> bool {
    t.id matches Some(x) && x@ == id
}

/// `t` carries the title `title`.
pub open spec fn has_title(t: Todo, title: Seq<char>) -> bool {
    t.title@ == title
}

/// `i` is the first position of `s` that holds a todo with the id `id`.
pub open spec fn is_first_with_id(s: Seq<Todo>, id: Seq<char>, i: int) -> bool {
    &&& 0 <= i < s.len()
    &&& has_todo_id(s[i], id)
    &&& forall|j: int| 0 <= j < i ==> !has_todo_id(#[trigger] s[j], id)
}

/// The first position of `s` that holds a todo with the id `id`, if any.
pub open spec fn first_with_id(s: Seq<Todo>, id: Seq<char>) -> Option<int> {
    if exists|i: int| is_first_with_id(s, id, i) {
        Some(choose|i: int| is_first_with_id(s, id, i))
    } else {
        None
    }
}

/// Keeps the todos whose id is not `id`.
pub open spec fn id_is_not(id: Seq<char>) -> spec_fn(Todo) -> bool {
    |t: Todo| !has_todo_id(t, id)
}

/// Some todo of `s` has the title `title`.
pub open spec fn title_taken(s: Seq<Todo>, title: Seq<char>) -> bool {
    exists|i: int| 0 <= i < s.len() && has_title(#[trigger] s[i], title)
}

/// The window of `s` that starts at `offset` and holds at most `limit`
/// todos.
pub open spec fn page_window(s: Seq<Todo>, offset: int, limit: int) -> Seq<Todo> {
    if offset >= s.len() {
        Seq::empty()
    } else if limit >= s.len() - offset {
        s.subrange(offset, s.len() as int)
    } else {
        s.subrange(offset, offset + limit)
    }
}

/// The todo made from the body of a create request, with a fresh id and the
/// creation time: not completed, created and updated at `now`.
pub open spec fn created_todo(body: Todo, id: String, now: Timestamp) -> Todo {
    Todo {
        id: Some(id),
        title: body.title,
        content: body.content,
        completed: Some(false),
        createdAt: Some(now),
        updatedAt: Some(now),
    }
}

/// The text an update leaves in a field: the new text unless it is absent
/// or empty.
pub open spec fn merged_text(new: Option<String>, old: String) -> String {
    match new {
        Some(t) => if t@.len() > 0 { t } else { old },
        None => old,
    }
}

/// The todo `old` after the update `body` at time `now`: id and creation
/// time stay, texts merge, `completed` changes only when given.
pub open spec fn updated_todo(old: Todo, body: UpdateTodoSchema, now: Timestamp) -> Todo {
    Todo {
        id: old.id,
        title: merged_text(body.title, old.title),
        content: merged_text(body.content, old.content),
        completed: if body.completed is Some { body.completed } else { old.completed },
        createdAt: old.createdAt,
        updatedAt: Some(now),
    }
}

impl Todo {
    /// A copy of this todo, equal to it field by field.
    pub fn duplicate(&self) -> (copy: Todo)
        ensures
            copy == *self,
    {
        let id = match &self.id {
            Some(x) => Some(x.clone()),
            None => None,
        };
        Todo {
            id,
            title: self.title.clone(),
            content: self.content.clone(),
            completed: self.completed,
            createdAt: self.createdAt,
            updatedAt: self.updatedAt,
        }
    }

    /// Whether this todo carries the id `id`.
    pub fn has_id(&self, id: &String) -> (res: bool)
        ensures
            res == has_todo_id(*self, id@),
    {
        match &self.id {
            Some(x) => *x == *id,
            None => false,
        }
    }
}

/// The todo list, oldest first.
pub struct TodoStore {
    todos: Vec<Todo>,
}

impl View for TodoStore {
    type V = Seq<Todo>;

    closed spec fn view(&self) -> Seq<Todo> {
        self.todos@
    }
}

impl TodoStore {
    /// An empty list.
    pub fn new() -> (store: TodoStore)
        ensures
            store@ == Seq::<Todo>::empty(),
    {
        TodoStore { todos: Vec::new() }
    }

    /// A list holding `todos` in this order.
    pub fn from_vec(todos: Vec<Todo>) -> (store: TodoStore)
        ensures
            store@ == todos@,
    {
        TodoStore { todos }
    }

    /// The number of todos.
    pub fn len(&self) -> (n: usize)
        ensures
            n == self@.len(),
    {
        self.todos.len()
    }

    /// A copy of the todo at position `i`.
    pub fn get(&self, i: usize) -> (t: Todo)
        requires
            i < self@.len(),
        ensures
            t == self@[i as int],
    {
        self.todos[i].duplicate()
    }

    /// The position of the first todo with the id `id`.
    pub fn position_of(&self, id: &String) -> (pos: Option<usize>)
        ensures
            pos matches Some(i) ==> first_with_id(self@, id@) == Some(i as int),
            pos is None ==> first_with_id(self@, id@) is None,
    {
        let n = self.todos.len();
        let mut i: usize = 0;
        while i < n
            invariant
                n == self@.len(),
                i <= n,
                forall|j: int| 0 <= j < i ==> !has_todo_id(#[trigger] self@[j], id@),
            decreases n - i,
        {
            if self.todos[i].has_id(id) {
                assert(is_first_with_id(self@, id@, i as int));
                return Some(i);
            }
            i = i + 1;
        }
        assert forall|k: int| !is_first_with_id(self@, id@, k) by {}
        None
    }

    /// Whether some todo has the title `title`.
    pub fn has_title(&self, title: &String) -> (res: bool)
        ensures
            res == title_taken(self@, title@),
    {
        let n = self.todos.len();
        let mut i: usize = 0;
        while i < n
            invariant
                n == self@.len(),
                i <= n,
                forall|j: int| 0 <= j < i ==> !has_title(#[trigger] self@[j], title@),
            decreases n - i,
        {
            if self.todos[i].title == *title {
                assert(has_title(self@[i as int], title@));
                return true;
            }
            i = i + 1;
        }
        false
    }

    /// Copies of the todos from `offset` on, at most `limit` of them.
    pub fn window(&self, offset: usize, limit: usize) -> (page: Vec<Todo>)
        ensures
            page@ == page_window(self@, offset as int, limit as int),
    {
        let n = self.todos.len();
        let mut page: Vec<Todo> = Vec::new();
        if offset >= n {
            return page;
        }
        let end: usize = if limit >= n - offset {
            n
        } else {
            offset + limit
        };
        let mut i: usize = offset;
        while i < end
            invariant
                n == self@.len(),
                offset <= i <= end <= n,
                page@ == self@.subrange(offset as int, i as int),
            decreases end - i,
        {
            page.push(self.todos[i].duplicate());
            i = i + 1;
        }
        page
    }

    /// Append `t` at the end.
    pub fn push(&mut self, t: Todo)
        ensures
            final(self)@ == old(self)@.push(t),
    {
        self.todos.push(t);
    }

    /// Replace the todo at position `i` by `t`.
    pub fn replace(&mut self, i: usize, t: Todo)
        requires
            i < old(self)@.len(),
        ensures
            final(self)@ == old(self)@.update(i as int, t),
    {
        self.todos.set(i, t);
    }

    /// Drop every todo with the id `id`, keeping the order of the others.
    pub fn remove_id(&mut self, id: &String)
        ensures
            final(self)@ == old(self)@.filter(id_is_not(id@)),
    {
        let n = self.todos.len();
        let mut kept: Vec<Todo> = Vec::new();
        let mut i: usize = 0;
        while i < n
            invariant
                n == self@.len(),
                i <= n,
                kept@ == self@.take(i as int).filter(id_is_not(id@)),
            decreases n - i,
        {
            proof {
                assert(self@.take(i + 1) == self@.take(i as int).push(self@[i as int]));
                self@.take(i as int).lemma_filter_push(self@[i as int], id_is_not(id@));
            }
            if !self.todos[i].has_id(id) {
                kept.push(self.todos[i].duplicate());
            }
            i = i + 1;
        }
        assert(self@.take(n as int) == self@);
        self.todos = kept;
    }
}

/// A todo just added is found by its id, unless an older todo already
/// carried that id.
pub proof fn law_find_after_create(s: Seq<Todo>, body: Todo, id: String, now: Timestamp)
    requires
        forall|j: int| 0 <= j < s.len() ==> !has_todo_id(#[trigger] s[j], id@),
    ensures
        first_with_id(s.push(created_todo(body, id, now)), id@) == Some(s.len() as int),
{
    let s2 = s.push(created_todo(body, id, now));
    assert(is_first_with_id(s2, id@, s.len() as int));
    lemma_first_with_id_unique(s2, id@, s.len() as int);
}

/// The first position with an id is the only position that is first.
pub proof fn lemma_first_with_id_unique(s: Seq<Todo>, id: Seq<char>, i: int)
    requires
        is_first_with_id(s, id, i),
    ensures
        first_with_id(s, id) == Some(i),
{
    let k = choose|k: int| is_first_with_id(s, id, k);
    assert(is_first_with_id(s, id, k));
    if k < i {
        assert(!has_todo_id(s[k], id));
    }
    if i < k {
        assert(!has_todo_id(s[i], id));
    }
}

/// After removing an id, no todo carries it, and a todo is kept exactly
/// when it was there and carries another id; the kept todos keep their
/// order.
pub proof fn law_remove_id_keeps_exactly_the_others(s: Seq<Todo>, id: Seq<char>)
    ensures
        first_with_id(s.filter(id_is_not(id)), id) is None,
        forall|t: Todo| #[trigger] s.filter(id_is_not(id)).contains(t) <==> (s.contains(t)
            && !has_todo_id(t, id)),
        s.filter(id_is_not(id)).len() <= s.len(),
{
    let kept = s.filter(id_is_not(id));
    broadcast use vstd::seq_lib::group_filter_ensures;
    assert forall|k: int| !is_first_with_id(kept, id, k) by {
        if 0 <= k < kept.len() {
            assert(id_is_not(id)(kept[k]));
        }
    }
    assert forall|t: Todo| #[trigger] kept.contains(t) <==> (s.contains(t) && !has_todo_id(t, id)) by {
        if kept.contains(t) {
            let k = choose|k: int| 0 <= k < kept.len() && kept[k] == t;
            assert(id_is_not(id)(kept[k]));
            s.lemma_filter_contains_rev(id_is_not(id), t);
        }
        if s.contains(t) && !has_todo_id(t, id) {
            let k = choose|k: int| 0 <= k < s.len() && s[k] == t;
            assert(id_is_not(id)(s[k]));
            s.lemma_filter_contains(id_is_not(id), k);
        }
    }
}

/// An update keeps the id and creation time of the todo, and a lookup by
/// that id afterwards finds the updated todo at the same position.
pub proof fn law_update_keeps_identity(
    s: Seq<Todo>,
    id: Seq<char>,
    i: int,
    body: UpdateTodoSchema,
    now: Timestamp,
)
    requires
        first_with_id(s, id) == Some(i),
    ensures
        updated_todo(s[i], body, now).id == s[i].id,
        updated_todo(s[i], body, now).createdAt == s[i].createdAt,
        first_with_id(s.update(i, updated_todo(s[i], body, now)), id) == Some(i),
{
    let s2 = s.update(i, updated_todo(s[i], body, now));
    let k = choose|k: int| is_first_with_id(s, id, k);
    assert(exists|k: int| is_first_with_id(s, id, k));
    assert(is_first_with_id(s, id, k));
    lemma_first_with_id_unique(s, id, k);
    assert(is_first_with_id(s2, id, i));
    lemma_first_with_id_unique(s2, id, i);
}

/// A todo created only when its title is free keeps the titles of the list
/// pairwise distinct.
pub proof fn law_create_keeps_titles_distinct(s: Seq<Todo>, body: Todo, id: String, now: Timestamp)
    requires
        titles_distinct(s),
        !title_taken(s, body.title@),
    ensures
        titles_distinct(s.push(created_todo(body, id, now))),
{
    let s2 = s.push(created_todo(body, id, now));
    assert forall|a: int, b: int| 0 <= a < b < s2.len() implies (#[trigger] s2[a]).title@ != (
    #[trigger] s2[b]).title@ by {
        if b == s.len() {
            assert(!has_title(s[a], body.title@));
        }
    }
}

/// No two todos of `s` share a title.
pub open spec fn titles_distinct(s: Seq<Todo>) -> bool {
    forall|a: int, b: int| 0 <= a < b < s.len() ==> (#[trigger] s[a]).title@ != (#[trigger] s[b]).title@
}

/// A page is the slice of the list that starts at `offset`: it holds
/// `limit` todos, or all those from `offset` on when fewer remain (none when
/// `offset` is past the end), the `k`-th being the todo at position
/// `offset + k` of the list.
pub proof fn law_page_window_is_a_slice(s: Seq<Todo>, offset: int, limit: int)
    requires
        0 <= offset,
        0 <= limit,
    ensures
        page_window(s, offset, limit).len() == if offset >= s.len() {
            0
        } else if offset + limit <= s.len() {
            limit
        } else {
            s.len() - offset
        },
        forall|k: int|
            0 <= k < page_window(s, offset, limit).len() ==> #[trigger] page_window(s, offset, limit)[k]
                == s[offset + k],
{
}

/// The todo made by an update, field by field: the id and creation time
/// stay; a given title or content that is not empty replaces the old one,
/// otherwise the old one stays; a given `completed` replaces the old one
/// (so a todo can be marked done and marked not done), otherwise the old one
/// stays; the update time becomes `now`.
pub proof fn law_updated_todo_fields(old: Todo, body: UpdateTodoSchema, now: Timestamp)
    ensures
        updated_todo(old, body, now).id == old.id,
        updated_todo(old, body, now).createdAt == old.createdAt,
        updated_todo(old, body, now).updatedAt == Some(now),
        body.completed matches Some(c) ==> updated_todo(old, body, now).completed == Some(c),
        body.completed is None ==> updated_todo(old, body, now).completed == old.completed,
        body.title matches Some(t) ==> (t@.len() > 0 ==> updated_todo(old, body, now).title == t),
        match body.title {
            Some(t) => t@.len() == 0,
            None => true,
        } ==> updated_todo(old, body, now).title == old.title,
        body.content matches Some(c) ==> (c@.len() > 0 ==> updated_todo(old, body, now).content
            == c),
        match body.content {
            Some(c) => c@.len() == 0,
            None => true,
        } ==> updated_todo(old, body, now).content == old.content,
{
}

/// The todo made by a create, field by field: the fresh id, the title and
/// content of the request, not completed, created and updated at `now`.
pub proof fn law_created_todo_fields(body: Todo, id: String, now: Timestamp)
    ensures
        created_todo(body, id, now).id == Some(id),
        created_todo(body, id, now).title == body.title,
        created_todo(body, id, now).content == body.content,
        created_todo(body, id, now).completed == Some(false),
        created_todo(body, id, now).createdAt == Some(now),
        created_todo(body, id, now).updatedAt == Some(now),
{
}

/// A title is taken exactly when some todo of the list has a title with the
/// same characters.
pub proof fn law_title_taken_means_same_title(s: Seq<Todo>, title: Seq<char>)
    ensures
        title_taken(s, title) <==> exists|i: int| 0 <= i < s.len() && (#[trigger] s[i]).title@ == title,
{
}

/// A lookup by id gives the first position whose todo carries that id, and
/// nothing only when no todo carries it.
pub proof fn law_first_with_id_is_the_first_match(s: Seq<Todo>, id: Seq<char>)
    ensures
        first_with_id(s, id) matches Some(i) ==> {
            &&& 0 <= i < s.len()
            &&& s[i].id matches Some(x) && x@ == id
            &&& forall|j: int| 0 <= j < i ==> !((#[trigger] s[j]).id matches Some(x) && x@ == id)
        },
        first_with_id(s, id) is None ==> forall|j: int|
            0 <= j < s.len() ==> !((#[trigger] s[j]).id matches Some(x) && x@ == id),
{
    if first_with_id(s, id) is None {
        assert forall|j: int| 0 <= j < s.len() implies !((#[trigger] s[j]).id matches Some(x) && x@
            == id) by {
            if s[j].id matches Some(x) && x@ == id {
                let k = choose_first(s, id, j);
                assert(is_first_with_id(s, id, k));
            }
        }
    } else {
        let k = choose|k: int| is_first_with_id(s, id, k);
        assert(is_first_with_id(s, id, k));
    }
}

/// The first position at or before `j` whose todo carries `id`, given that
/// the todo at `j` does.
proof fn choose_first(s: Seq<Todo>, id: Seq<char>, j: int) -> (k: int)
    requires
        0 <= j < s.len(),
        has_todo_id(s[j], id),
    ensures
        is_first_with_id(s, id, k),
    decreases j,
{
    if exists|m: int| 0 <= m < j && has_todo_id(#[trigger] s[m], id) {
        let m = choose|m: int| 0 <= m < j && has_todo_id(#[trigger] s[m], id);
        choose_first(s, id, m)
    } else {
        j
    }
}

/// Removing an id keeps, in order, exactly the todos whose id is absent or
/// different: the kept list holds a todo exactly when the list did and its
/// id is not `id`.
pub proof fn law_remove_id_fields(s: Seq<Todo>, id: Seq<char>)
    ensures
        forall|t: Todo| #[trigger] s.filter(id_is_not(id)).contains(t) <==> (s.contains(t) && !(
        t.id matches Some(x) && x@ == id)),
{
    law_remove_id_keeps_exactly_the_others(s, id);
}
} // verus!
