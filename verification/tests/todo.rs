use actix_api::controllers::todo::{
    apply_update, create_todo, delete_todo, find_todo, get_todo, insert_created, TodoBody,
    TodoReply,
};
use actix_api::structs::todo::{QueryOptions, Timestamp, Todo, TodoStore, UpdateTodoSchema};

fn s(x: &str) -> String {
    x.to_string()
}

fn body(title: &str, content: &str) -> Todo {
    Todo {
        id: Some(s("client-chosen")),
        title: s(title),
        content: s(content),
        completed: Some(true),
        createdAt: None,
        updatedAt: None,
    }
}

fn single(r: &TodoReply) -> &Todo {
    match &r.body {
        TodoBody::Single(b) => &b.data.todo,
        _ => panic!("expected one todo"),
    }
}

fn refusal(r: &TodoReply) -> (u16, String) {
    match &r.body {
        TodoBody::Generic(b) => {
            assert_eq!(b.status, "ERROR");
            assert_eq!(b.data, "");
            (r.code, b.message.clone())
        }
        _ => panic!("expected a refusal"),
    }
}

fn titles(store: &TodoStore) -> Vec<String> {
    (0..store.len()).map(|i| store.get(i).title).collect()
}

#[test]
fn create_sets_id_state_and_times() {
    let mut store = TodoStore::new();
    let r = create_todo(&mut store, body("write", "tests"));
    assert_eq!(r.code, 200);
    let t = single(&r);
    let id = t.id.clone().expect("an id");
    assert_ne!(id, "client-chosen");
    assert_eq!(id.len(), 36);
    assert_eq!(id.matches('-').count(), 4);
    let chars: Vec<char> = id.chars().collect();
    assert_eq!((chars[8], chars[13], chars[14], chars[18], chars[23]), ('-', '-', '4', '-', '-'));
    assert_eq!(t.title, "write");
    assert_eq!(t.content, "tests");
    assert_eq!(t.completed, Some(false));
    let created = t.createdAt.expect("a creation time");
    let updated = t.updatedAt.expect("an update time");
    assert_eq!(created.secs, updated.secs);
    assert_eq!(created.nanos, updated.nanos);
    assert!(created.secs > 1_600_000_000);
    assert_eq!(store.len(), 1);
    match &r.body {
        TodoBody::Single(b) => {
            assert_eq!(b.status, "OK");
            assert_eq!(b.message, "Successfully created todo");
        }
        _ => unreachable!(),
    }
}

#[test]
fn two_creates_get_different_ids() {
    let mut store = TodoStore::new();
    let a = single(&create_todo(&mut store, body("a", ""))).id.clone();
    let b = single(&create_todo(&mut store, body("b", ""))).id.clone();
    assert_ne!(a, b);
}

#[test]
fn find_after_create() {
    let mut store = TodoStore::new();
    create_todo(&mut store, body("first", "1"));
    let made = single(&create_todo(&mut store, body("second", "2"))).id.clone().unwrap();
    let r = find_todo(&store, made.clone());
    assert_eq!(r.code, 200);
    let t = single(&r);
    assert_eq!(t.title, "second");
    match &r.body {
        TodoBody::Single(b) => {
            assert_eq!(b.status, "success");
            assert_eq!(b.message, "Successfully retrieved todo");
        }
        _ => unreachable!(),
    }
}

#[test]
fn duplicate_title_is_a_conflict_and_changes_nothing() {
    let mut store = TodoStore::new();
    create_todo(&mut store, body("same", "1"));
    let r = create_todo(&mut store, body("same", "2"));
    assert_eq!(refusal(&r), (409, s("Todo with title: 'same' already exists")));
    assert_eq!(store.len(), 1);
    assert_eq!(store.get(0).content, "1");
}

#[test]
fn find_unknown_id_is_not_found() {
    let store = TodoStore::new();
    let r = find_todo(&store, s("nope"));
    assert_eq!(refusal(&r), (404, s("Todo with ID: nope not found")));
}

fn fixed(id: &str, title: &str) -> Todo {
    Todo {
        id: Some(s(id)),
        title: s(title),
        content: s("c"),
        completed: None,
        createdAt: Some(Timestamp { secs: 10, nanos: 5 }),
        updatedAt: Some(Timestamp { secs: 10, nanos: 5 }),
    }
}

#[test]
fn insert_created_builds_the_todo() {
    let mut store = TodoStore::new();
    let r = insert_created(&mut store, body("t", "c"), s("id-1"), Timestamp { secs: 7, nanos: 9 });
    let t = single(&r);
    assert_eq!(t.id.as_deref(), Some("id-1"));
    assert_eq!(t.completed, Some(false));
    assert_eq!(t.createdAt.map(|x| (x.secs, x.nanos)), Some((7, 9)));
    assert_eq!(t.updatedAt.map(|x| (x.secs, x.nanos)), Some((7, 9)));
    assert_eq!(store.get(0).title, "t");
}

#[test]
fn pages_default_to_ten_from_the_start() {
    let todos: Vec<Todo> = (0..25).map(|i| fixed(&format!("id{i}"), &format!("t{i}"))).collect();
    let store = TodoStore::from_vec(todos);
    let r = get_todo(&store, QueryOptions { page: None, limit: None });
    assert_eq!(r.code, 200);
    match &r.body {
        TodoBody::List(l) => {
            assert_eq!(l.status, "OK");
            assert_eq!(l.message, "Successfully retrieved todos");
            assert_eq!(l.results, 10);
            assert_eq!(l.todos[0].title, "t0");
            assert_eq!(l.todos[9].title, "t9");
        }
        _ => panic!("expected a list"),
    }
}

#[test]
fn later_pages_and_short_last_page() {
    let todos: Vec<Todo> = (0..25).map(|i| fixed(&format!("id{i}"), &format!("t{i}"))).collect();
    let store = TodoStore::from_vec(todos);
    let page = |p: usize, l: usize| match get_todo(&store, QueryOptions { page: Some(p), limit: Some(l) }).body {
        TodoBody::List(l) => (l.results, l.todos.iter().map(|t| t.title.clone()).collect::<Vec<_>>()),
        _ => panic!("expected a list"),
    };
    assert_eq!(page(2, 10).1, (10..20).map(|i| format!("t{i}")).collect::<Vec<_>>());
    assert_eq!(page(3, 10), (5, (20..25).map(|i| format!("t{i}")).collect::<Vec<_>>()));
    assert_eq!(page(4, 10), (0, vec![]));
    assert_eq!(page(1, 0), (0, vec![]));
    assert_eq!(page(1, 100).0, 25);
    assert_eq!(page(9, usize::MAX / 16).0, 0);
}

#[test]
fn update_merges_fields() {
    let mut store = TodoStore::from_vec(vec![fixed("a", "old a"), fixed("b", "old b")]);
    let r = apply_update(
        &mut store,
        1,
        UpdateTodoSchema { title: Some(s("")), content: Some(s("new c")), completed: Some(true) },
        Timestamp { secs: 99, nanos: 0 },
    );
    let t = single(&r);
    assert_eq!(t.id.as_deref(), Some("b"));
    assert_eq!(t.title, "old b");
    assert_eq!(t.content, "new c");
    assert_eq!(t.completed, Some(true));
    assert_eq!(t.createdAt.map(|x| x.secs), Some(10));
    assert_eq!(t.updatedAt.map(|x| x.secs), Some(99));
    assert_eq!(titles(&store), vec![s("old a"), s("old b")]);
    assert_eq!(store.get(1).content, "new c");
}

#[test]
fn update_keeps_completed_when_absent() {
    let mut store = TodoStore::from_vec(vec![fixed("a", "x")]);
    let r = update_first(&mut store, "a", UpdateTodoSchema { title: Some(s("y")), content: None, completed: None });
    let t = single(&r);
    assert_eq!(t.title, "y");
    assert_eq!(t.content, "c");
    assert_eq!(t.completed, None);
    assert!(t.updatedAt.unwrap().secs > 1_600_000_000);
    assert_eq!(t.createdAt.map(|x| x.secs), Some(10));
}

fn update_first(store: &mut TodoStore, id: &str, b: UpdateTodoSchema) -> TodoReply {
    actix_api::controllers::todo::update_todo(store, s(id), b)
}

#[test]
fn update_unknown_id_is_not_found() {
    let mut store = TodoStore::from_vec(vec![fixed("a", "x")]);
    let r = update_first(&mut store, "b", UpdateTodoSchema { title: Some(s("y")), content: None, completed: None });
    assert_eq!(refusal(&r), (404, s("Todo with ID: b not found")));
    assert_eq!(store.get(0).title, "x");
}

#[test]
fn update_changes_only_the_first_match() {
    let mut store = TodoStore::from_vec(vec![fixed("a", "1"), fixed("a", "2")]);
    update_first(&mut store, "a", UpdateTodoSchema { title: Some(s("z")), content: None, completed: None });
    assert_eq!(titles(&store), vec![s("z"), s("2")]);
}

#[test]
fn delete_removes_every_match_and_keeps_order() {
    let mut store = TodoStore::from_vec(vec![fixed("a", "1"), fixed("b", "2"), fixed("a", "3"), fixed("c", "4")]);
    let r = delete_todo(&mut store, s("a"));
    assert_eq!(r.code, 204);
    assert!(matches!(r.body, TodoBody::Empty));
    assert_eq!(titles(&store), vec![s("2"), s("4")]);
    let again = find_todo(&store, s("a"));
    assert_eq!(again.code, 404);
}

#[test]
fn delete_unknown_id_is_not_found() {
    let mut store = TodoStore::from_vec(vec![fixed("a", "1")]);
    let r = delete_todo(&mut store, s("zz"));
    assert_eq!(refusal(&r), (404, s("Todo with ID: zz not found")));
    assert_eq!(store.len(), 1);
}

#[test]
fn todos_without_id_never_match() {
    let mut t = fixed("a", "1");
    t.id = None;
    let store = TodoStore::from_vec(vec![t]);
    assert_eq!(store.position_of(&s("")), None);
    assert_eq!(find_todo(&store, s("")).code, 404);
}
