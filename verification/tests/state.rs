use rust_fullstack_todo::local::{create_todo, Todo};
use rust_fullstack_todo::model::UpdateTodoRequest;
use rust_fullstack_todo::repository::TodoRepository;
use rust_fullstack_todo::state::{TodoAction, TodoContext, TodoState};
use rust_fullstack_todo::status::TodoStatus;
use rust_fullstack_todo::todo::Todo as StoredTodo;
use rust_fullstack_todo::error::TodoError;

fn local(id: i32, content: &str, status: TodoStatus) -> Todo {
    Todo { id, content: content.to_string(), status }
}

#[test]
fn local_todo_takes_its_position_as_id() {
    assert_eq!(create_todo(&0, "a"), local(0, "a", TodoStatus::Todo));
    assert_eq!(create_todo(&7, ""), local(7, "", TodoStatus::Todo));
}

#[test]
fn add_puts_the_new_todo_in_front() {
    let state = TodoState::new(vec![]);
    assert!(state.refresh);
    let one = state.reduce(TodoAction::Add("a".to_string()));
    assert_eq!(one.locals, vec![local(0, "a", TodoStatus::Todo)]);
    assert!(!one.refresh);
    let two = one.reduce(TodoAction::Add("b".to_string()));
    assert_eq!(
        two.locals,
        vec![local(1, "b", TodoStatus::Todo), local(0, "a", TodoStatus::Todo)]
    );
    assert!(two.refresh);
}

#[test]
fn update_patches_the_first_todo_with_the_id() {
    let state = TodoState {
        locals: vec![
            local(1, "a", TodoStatus::Todo),
            local(2, "b", TodoStatus::Todo),
            local(1, "c", TodoStatus::Todo),
        ],
        refresh: false,
    };
    let patch = UpdateTodoRequest { content: None, status: Some(TodoStatus::Done) };
    let next = state.reduce(TodoAction::Update(1, patch));
    assert_eq!(
        next.locals,
        vec![
            local(1, "a", TodoStatus::Done),
            local(2, "b", TodoStatus::Todo),
            local(1, "c", TodoStatus::Todo),
        ]
    );
    assert!(next.refresh);
    let patch = UpdateTodoRequest { content: Some("z".to_string()), status: None };
    let next = next.reduce(TodoAction::Update(2, patch));
    assert_eq!(next.locals[1], local(2, "z", TodoStatus::Todo));
    assert!(!next.refresh);
}

#[test]
fn update_of_an_unknown_id_changes_only_the_mark() {
    let state = TodoState { locals: vec![local(1, "a", TodoStatus::Todo)], refresh: true };
    let patch = UpdateTodoRequest { content: Some("x".to_string()), status: None };
    let next = state.reduce(TodoAction::Update(9, patch));
    assert_eq!(next.locals, state.locals);
    assert!(!next.refresh);
}

#[test]
fn clear_deleted_drops_deleted_todos_only() {
    let state = TodoState {
        locals: vec![
            local(3, "a", TodoStatus::Deleted),
            local(2, "b", TodoStatus::Archived),
            local(1, "c", TodoStatus::Deleted),
            local(0, "d", TodoStatus::Todo),
        ],
        refresh: true,
    };
    let next = state.reduce(TodoAction::ClearDeleted);
    assert_eq!(
        next.locals,
        vec![local(2, "b", TodoStatus::Archived), local(0, "d", TodoStatus::Todo)]
    );
    assert!(!next.refresh);
}

#[test]
fn refresh_flips_the_mark_and_keeps_the_list() {
    let state = TodoState { locals: vec![local(1, "a", TodoStatus::Done)], refresh: false };
    let next = state.reduce(TodoAction::Refresh);
    assert_eq!(next.locals, state.locals);
    assert!(next.refresh);
}

#[test]
fn context_holds_the_remote_switch() {
    let context = TodoContext { enable_remote: false };
    assert_eq!(context, TodoContext { enable_remote: false });
    assert_ne!(context, TodoContext { enable_remote: true });
}

fn stored(namespace: &str, id: i32) -> StoredTodo {
    let mut todo = StoredTodo::create_at(namespace, "x", 1);
    todo.id.1 = id;
    todo
}

#[test]
fn a_store_is_restored_only_from_well_formed_rows() {
    assert!(TodoRepository::from_rows(vec![]).is_some());
    let good = vec![stored("home", 1), stored("work", 1), stored("home", 5), stored("work", 2)];
    let repo = TodoRepository::from_rows(good).unwrap();
    assert_eq!(repo.len(), 4);
    assert_eq!(repo.query_todos("home".to_string(), None).len(), 2);

    assert!(TodoRepository::from_rows(vec![stored("home", 0)]).is_none());
    assert!(TodoRepository::from_rows(vec![stored("home", -3)]).is_none());
    assert!(TodoRepository::from_rows(vec![stored("home", 2), stored("home", 2)]).is_none());
    assert!(TodoRepository::from_rows(vec![stored("home", 2), stored("home", 1)]).is_none());
}

#[test]
fn insert_into_a_full_namespace_fails_and_stores_nothing() {
    let rows = vec![stored("home", i32::MAX), stored("work", 1)];
    let mut repo = TodoRepository::from_rows(rows).unwrap();
    let refused = repo.insert_todo_at(StoredTodo::create_at("home", "a", 1), 1);
    assert_eq!(refused, Err(TodoError::IdsExhausted));
    assert_eq!(repo.len(), 2);
    let taken = repo.insert_todo_at(StoredTodo::create_at("work", "a", 1), 1).unwrap();
    assert_eq!(taken.id.1, 2);
}

#[test]
fn stored_namespace_is_kept_and_a_missing_one_is_made() {
    use_stored();
    let (name, fresh) = rust_fullstack_todo::namespace::get(None);
    assert!(fresh);
    assert_eq!(name.len(), 36);
    assert_eq!(name.matches('-').count(), 4);
    let (other, _) = rust_fullstack_todo::namespace::get(None);
    assert_ne!(name, other);
}

fn use_stored() {
    let (name, fresh) = rust_fullstack_todo::namespace::get(Some("home".to_string()));
    assert_eq!(name, "home");
    assert!(!fresh);
}

#[test]
fn retry_doubles_the_pause_until_the_tries_are_used_up() {
    let start = rust_fullstack_todo::retry::Retry::start();
    assert_eq!((start.interval, start.retry), (200, 0));
    assert!(start.active());
    let one = start.tick(true, 2);
    assert_eq!((one.interval, one.retry), (400, 1));
    let two = one.tick(true, 2);
    assert_eq!((two.interval, two.retry), (800, 2));
    let three = two.tick(true, 2);
    assert_eq!((three.interval, three.retry), (0, 2));
    assert!(!three.active());
}

#[test]
fn retry_stops_when_the_condition_is_met() {
    let start = rust_fullstack_todo::retry::Retry::start();
    let stopped = start.tick(false, 5);
    assert_eq!((stopped.interval, stopped.retry), (0, 0));
    assert!(!stopped.active());
    let none = start.tick(true, 0);
    assert_eq!((none.interval, none.retry), (0, 0));
}

#[test]
fn controls_depend_on_status_and_editing() {
    use_controls();
}

fn use_controls() {
    let none = rust_fullstack_todo::view::Controls {
        save: false,
        cancel: false,
        done: false,
        undo: false,
        edit: false,
        archive: false,
        delete: false,
    };
    let control = rust_fullstack_todo::view::todo_control;
    assert_eq!(
        control(TodoStatus::Todo, false),
        rust_fullstack_todo::view::Controls { done: true, edit: true, archive: true, ..none }
    );
    assert_eq!(
        control(TodoStatus::Done, false),
        rust_fullstack_todo::view::Controls { undo: true, archive: true, ..none }
    );
    assert_eq!(
        control(TodoStatus::Archived, false),
        rust_fullstack_todo::view::Controls { delete: true, ..none }
    );
    assert_eq!(control(TodoStatus::Deleted, false), none);
    for status in
        [TodoStatus::Todo, TodoStatus::Done, TodoStatus::Archived, TodoStatus::Deleted]
    {
        assert_eq!(
            control(status, true),
            rust_fullstack_todo::view::Controls { save: true, cancel: true, ..none }
        );
    }
}

#[test]
fn tabs_come_in_order_with_their_labels() {
    let order = rust_fullstack_todo::view::tabs();
    assert_eq!(
        order,
        vec![
            Some(TodoStatus::Todo),
            Some(TodoStatus::Done),
            None,
            Some(TodoStatus::Archived),
            Some(TodoStatus::Deleted),
        ]
    );
    let labels: Vec<String> =
        order.into_iter().map(rust_fullstack_todo::view::tab_name).collect();
    assert_eq!(labels, vec!["Todo", "Done", "All", "Archived", "Deleted"]);
}

#[test]
fn a_tab_shows_the_todos_of_its_status() {
    let state = TodoState {
        locals: vec![
            local(2, "c", TodoStatus::Done),
            local(1, "b", TodoStatus::Todo),
            local(0, "a", TodoStatus::Done),
        ],
        refresh: true,
    };
    assert_eq!(state.shown(None), state.locals);
    assert_eq!(
        state.shown(Some(TodoStatus::Done)),
        vec![local(2, "c", TodoStatus::Done), local(0, "a", TodoStatus::Done)]
    );
    assert!(state.shown(Some(TodoStatus::Deleted)).is_empty());
}

#[test]
fn clear_button_shows_on_a_filled_deleted_tab_only() {
    let show = rust_fullstack_todo::view::show_clear_deleted_button;
    assert!(show(Some(TodoStatus::Deleted), 1));
    assert!(!show(Some(TodoStatus::Deleted), 0));
    assert!(!show(Some(TodoStatus::Archived), 3));
    assert!(!show(None, 3));
}

#[test]
fn typed_text_is_trimmed_and_blank_text_ignored() {
    use_input();
}

fn use_input() {
    let add = rust_fullstack_todo::input::add_todo;
    assert_eq!(add("  buy milk \n"), Some(TodoAction::Add("buy milk".to_string())));
    assert_eq!(add("a b"), Some(TodoAction::Add("a b".to_string())));
    assert_eq!(add(""), None);
    assert_eq!(add(" \t "), None);

    let edit = rust_fullstack_todo::input::edit_todo;
    let patch = UpdateTodoRequest { content: Some("x".to_string()), status: None };
    assert_eq!(edit(4, " x "), Some(TodoAction::Update(4, patch)));
    assert_eq!(edit(4, "   "), None);

    let accept = rust_fullstack_todo::input::accept;
    assert_eq!(accept(""), None);
    assert_eq!(accept(" a"), Some(" a".to_string()));
}
