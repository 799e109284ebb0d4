use rust_fullstack_todo::domain::TodoDomain;
use rust_fullstack_todo::error::TodoError;
use rust_fullstack_todo::status::TodoStatus;
use rust_fullstack_todo::todo::{Todo, UpdateTodo};

fn with_status(domain: &mut TodoDomain, namespace: &str, status: TodoStatus) -> Todo {
    let created = domain.create_todo(namespace, "item").unwrap();
    let patch = UpdateTodo { content: None, status: Some(status) };
    domain.update_todo(created.id, patch).unwrap()
}

#[test]
fn lifecycle_from_creation_to_deleted() {
    let mut domain = TodoDomain::new();
    let created = domain.create_todo("home", "buy milk").unwrap();
    assert_eq!(created.status, TodoStatus::Todo);
    assert!(created.id.1 > 0);
    assert_eq!(created.id.0, "home");
    assert_eq!(created.content, "buy milk");

    let done = domain.toggle_todo(created).unwrap();
    assert_eq!(done.status, TodoStatus::Done);
    let archived = domain.archive_todo(done).unwrap();
    assert_eq!(archived.status, TodoStatus::Archived);
    let deleted = domain.delete_todo(archived).unwrap();
    assert_eq!(deleted.status, TodoStatus::Deleted);

    let again = domain.archive_todo(deleted);
    assert_eq!(
        again,
        Err(TodoError::InvalidStatusTransition(TodoStatus::Deleted, TodoStatus::Archived))
    );
}

#[test]
fn listing_done_after_the_lifecycle_is_empty() {
    let mut domain = TodoDomain::new();
    let created = domain.create_todo("home", "buy milk").unwrap();
    let done = domain.toggle_todo(created).unwrap();
    let archived = domain.archive_todo(done).unwrap();
    domain.delete_todo(archived).unwrap();

    let listed = domain.list_todo("home".to_string(), Some(TodoStatus::Done)).unwrap();
    assert!(listed.is_empty());
    let all = domain.list_todo("home".to_string(), None).unwrap();
    assert_eq!(all.len(), 1);
    assert_eq!(all[0].status, TodoStatus::Deleted);
}

#[test]
fn namespaces_do_not_see_each_other_even_with_equal_ids() {
    let mut domain = TodoDomain::new();
    let home = domain.create_todo("home", "milk").unwrap();
    assert_eq!(home.id.1, 1);
    assert!(domain.list_todo("work".to_string(), None).unwrap().is_empty());
    assert_eq!(
        domain.get_todo_by_id(("work".to_string(), 1)),
        Err(TodoError::RecordNotFound)
    );

    let work = domain.create_todo("work", "mail").unwrap();
    assert_eq!(work.id.1, 1);
    let listed = domain.list_todo("work".to_string(), None).unwrap();
    assert_eq!(listed.len(), 1);
    assert_eq!(listed[0].content, "mail");
    assert_eq!(domain.get_todo_by_id(("work".to_string(), 1)).unwrap().content, "mail");
    assert_eq!(domain.get_todo_by_id(("home".to_string(), 1)).unwrap().content, "milk");
}

#[test]
fn create_yields_todo_whatever_the_content_says() {
    let mut domain = TodoDomain::new();
    let created = domain.create_todo("home", "status: Done").unwrap();
    assert_eq!(created.status, TodoStatus::Todo);
    let shouted = domain.create_todo("home", "Archived").unwrap();
    assert_eq!(shouted.status, TodoStatus::Todo);
    let empty = domain.create_todo("home", "").unwrap();
    assert_eq!(empty.status, TodoStatus::Todo);
    assert_eq!(empty.content, "");
    assert_eq!(empty.created_at, empty.updated_at);
}

#[test]
fn toggle_twice_restores_the_status() {
    let mut domain = TodoDomain::new();
    let created = domain.create_todo("home", "a").unwrap();
    let once = domain.toggle_todo(created.clone()).unwrap();
    assert_eq!(once.status, TodoStatus::Done);
    let twice = domain.toggle_todo(once.clone()).unwrap();
    assert_eq!(twice.status, TodoStatus::Todo);
    assert_eq!(twice.id, created.id);
    assert_eq!(twice.content, created.content);
    assert_eq!(twice.created_at, created.created_at);
    let thrice = domain.toggle_todo(twice).unwrap();
    assert_eq!(thrice.status, TodoStatus::Done);
}

#[test]
fn toggle_is_refused_past_done() {
    let mut domain = TodoDomain::new();
    let archived = with_status(&mut domain, "home", TodoStatus::Archived);
    assert_eq!(
        domain.toggle_todo(archived),
        Err(TodoError::InvalidStatusTransition(TodoStatus::Archived, TodoStatus::Todo))
    );
    let deleted = with_status(&mut domain, "home", TodoStatus::Deleted);
    assert_eq!(
        domain.toggle_todo(deleted),
        Err(TodoError::InvalidStatusTransition(TodoStatus::Deleted, TodoStatus::Todo))
    );
}

#[test]
fn archive_starts_from_done_only() {
    let mut domain = TodoDomain::new();
    let todo = with_status(&mut domain, "home", TodoStatus::Todo);
    assert_eq!(
        domain.archive_todo(todo),
        Err(TodoError::InvalidStatusTransition(TodoStatus::Todo, TodoStatus::Archived))
    );
    let archived = with_status(&mut domain, "home", TodoStatus::Archived);
    assert_eq!(
        domain.archive_todo(archived),
        Err(TodoError::InvalidStatusTransition(TodoStatus::Archived, TodoStatus::Archived))
    );
    let deleted = with_status(&mut domain, "home", TodoStatus::Deleted);
    assert_eq!(
        domain.archive_todo(deleted),
        Err(TodoError::InvalidStatusTransition(TodoStatus::Deleted, TodoStatus::Archived))
    );
    let done = with_status(&mut domain, "home", TodoStatus::Done);
    assert_eq!(domain.archive_todo(done).unwrap().status, TodoStatus::Archived);
}

#[test]
fn delete_starts_from_archived_only() {
    let mut domain = TodoDomain::new();
    let todo = with_status(&mut domain, "home", TodoStatus::Todo);
    assert_eq!(
        domain.delete_todo(todo),
        Err(TodoError::InvalidStatusTransition(TodoStatus::Todo, TodoStatus::Deleted))
    );
    let done = with_status(&mut domain, "home", TodoStatus::Done);
    assert_eq!(
        domain.delete_todo(done),
        Err(TodoError::InvalidStatusTransition(TodoStatus::Done, TodoStatus::Deleted))
    );
    let deleted = with_status(&mut domain, "home", TodoStatus::Deleted);
    assert_eq!(
        domain.delete_todo(deleted),
        Err(TodoError::InvalidStatusTransition(TodoStatus::Deleted, TodoStatus::Deleted))
    );
    let archived = with_status(&mut domain, "home", TodoStatus::Archived);
    let row = domain.delete_todo(archived).unwrap();
    assert_eq!(row.status, TodoStatus::Deleted);
    assert_eq!(domain.get_todo_by_id(row.id.clone()).unwrap().status, TodoStatus::Deleted);
}

#[test]
fn a_refused_move_writes_nothing() {
    let mut domain = TodoDomain::new();
    let created = domain.create_todo("home", "a").unwrap();
    assert!(domain.delete_todo(created.clone()).is_err());
    assert_eq!(domain.get_todo_by_id(created.id.clone()), Ok(created));
}

#[test]
fn transitions_go_by_the_stored_status_not_the_snapshot() {
    let mut domain = TodoDomain::new();
    let created = domain.create_todo("home", "a").unwrap();
    let mut stale = created.clone();
    stale.status = TodoStatus::Done;
    stale.content = "forged".to_string();
    assert_eq!(
        domain.archive_todo(stale.clone()),
        Err(TodoError::InvalidStatusTransition(TodoStatus::Todo, TodoStatus::Archived))
    );
    let toggled = domain.toggle_todo(stale).unwrap();
    assert_eq!(toggled.status, TodoStatus::Done);
    assert_eq!(toggled.content, "a");
}

#[test]
fn transitions_on_a_missing_entity_report_record_not_found() {
    let mut domain = TodoDomain::new();
    let mut ghost = Todo::create("home", "a");
    ghost.id.1 = 7;
    assert_eq!(domain.toggle_todo(ghost.clone()), Err(TodoError::RecordNotFound));
    assert_eq!(domain.archive_todo(ghost.clone()), Err(TodoError::RecordNotFound));
    assert_eq!(domain.delete_todo(ghost), Err(TodoError::RecordNotFound));
}

#[test]
fn update_with_an_empty_patch_changes_only_the_stamp() {
    let mut domain = TodoDomain::new();
    let created = domain.create_todo("home", "a").unwrap();
    let patch = UpdateTodo { content: None, status: None };
    let written = domain.update_todo(created.id.clone(), patch).unwrap();
    assert_eq!(written.id, created.id);
    assert_eq!(written.content, created.content);
    assert_eq!(written.status, created.status);
    assert_eq!(written.created_at, created.created_at);
}

#[test]
fn update_applies_only_the_fields_given() {
    let mut domain = TodoDomain::new();
    let created = domain.create_todo("home", "a").unwrap();
    let content_only = UpdateTodo { content: Some("b".to_string()), status: None };
    let first = domain.update_todo(created.id.clone(), content_only).unwrap();
    assert_eq!(first.content, "b");
    assert_eq!(first.status, TodoStatus::Todo);
    let status_only = UpdateTodo { content: None, status: Some(TodoStatus::Done) };
    let second = domain.update_todo(created.id.clone(), status_only).unwrap();
    assert_eq!(second.content, "b");
    assert_eq!(second.status, TodoStatus::Done);
}

#[test]
fn update_overwrites_the_status_unchecked() {
    let mut domain = TodoDomain::new();
    let created = domain.create_todo("home", "a").unwrap();
    let patch = UpdateTodo { content: None, status: Some(TodoStatus::Deleted) };
    let written = domain.update_todo(created.id.clone(), patch).unwrap();
    assert_eq!(written.status, TodoStatus::Deleted);
    let back = UpdateTodo { content: None, status: Some(TodoStatus::Todo) };
    assert_eq!(domain.update_todo(created.id, back).unwrap().status, TodoStatus::Todo);
}

#[test]
fn update_of_a_missing_entity_reports_record_not_found() {
    let mut domain = TodoDomain::new();
    let patch = UpdateTodo { content: Some("x".to_string()), status: None };
    assert_eq!(
        domain.update_todo(("home".to_string(), 99999), patch),
        Err(TodoError::RecordNotFound)
    );
}

#[test]
fn get_by_id_of_a_missing_pair_reports_record_not_found() {
    let mut domain = TodoDomain::new();
    assert_eq!(
        domain.get_todo_by_id(("default".to_string(), 99999)),
        Err(TodoError::RecordNotFound)
    );
    let created = domain.create_todo("default", "create a new todo").unwrap();
    assert_eq!(domain.get_todo_by_id(created.id.clone()), Ok(created));
    assert_eq!(
        domain.get_todo_by_id(("default".to_string(), 2)),
        Err(TodoError::RecordNotFound)
    );
}

#[test]
fn clear_of_nothing_is_a_successful_no_op() {
    let mut domain = TodoDomain::new();
    let created = domain.create_todo("home", "a").unwrap();
    assert_eq!(domain.clear_todos("home".to_string(), vec![]), Ok(()));
    assert_eq!(domain.get_todo_by_id(created.id.clone()), Ok(created));
}

#[test]
fn clear_removes_rows_for_good_and_passes_over_missing_ids() {
    let mut domain = TodoDomain::new();
    let a = domain.create_todo("home", "a").unwrap();
    let b = domain.create_todo("home", "b").unwrap();
    assert_eq!(domain.clear_todos("home".to_string(), vec![a.id.1, 42]), Ok(()));
    assert_eq!(domain.get_todo_by_id(a.id), Err(TodoError::RecordNotFound));
    assert_eq!(domain.get_todo_by_id(b.id.clone()), Ok(b));
}

#[test]
fn list_shows_what_was_created_in_order() {
    let mut domain = TodoDomain::new();
    assert!(domain.list_todo("get_todos".to_string(), None).unwrap().is_empty());
    domain.create_todo("not_empty", "create todo 1").unwrap();
    domain.create_todo("not_empty", "create todo 2").unwrap();
    domain.create_todo("not_empty", "create todo 3").unwrap();
    let listed = domain.list_todo("not_empty".to_string(), None).unwrap();
    let contents: Vec<&str> = listed.iter().map(|todo| todo.content.as_str()).collect();
    assert_eq!(contents, vec!["create todo 1", "create todo 2", "create todo 3"]);
}
