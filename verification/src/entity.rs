//! The persisted shape of a todo: a flat row whose status is text.

use vstd::prelude::*;
use crate::clock::now_micros;
use crate::error::TodoError;
use crate::status::{canonical_name, parse_canonical, TodoStatus};
use crate::todo::{Todo, TodoView};

verus! {

/// One row of the table `todos`. Timestamps are microseconds since the Unix
/// epoch.
#[derive(Debug, PartialEq, Eq)]
pub struct TodoEntity {
    pub namespace: String,
    pub id: i32,
    pub content: String,
    pub status: String,
    pub created_at: i64,
    pub updated_at: i64,
}

/// What a row is, as plain mathematical values.
pub ghost struct TodoEntityView {
    pub namespace: Seq<char>,
    pub id: int,
    pub content: Seq<char>,
    pub status: Seq<char>,
    pub created_at: int,
    pub updated_at: int,
}

impl View for TodoEntity {
    type V = TodoEntityView;

    open spec fn view(&self) -> TodoEntityView {
        TodoEntityView {
            namespace: self.namespace@,
            id: self.id as int,
            content: self.content@,
            status: self.status@,
            created_at: self.created_at as int,
            updated_at: self.updated_at as int,
        }
    }
}

/// The row that is written for `todo` at clock reading `now`: the status by
/// its canonical name, and `now` as the time of the write.
pub open spec fn encoded(todo: TodoView, now: int) -> TodoEntityView {
    TodoEntityView {
        namespace: todo.namespace,
        id: todo.id,
        content: todo.content,
        status: canonical_name(todo.status),
        created_at: todo.created_at,
        updated_at: now,
    }
}

/// The todo that a row stands for, where its status text is a canonical name.
pub open spec fn decoded(row: TodoEntityView) -> Option<TodoView> {
    match parse_canonical(row.status) {
        Some(status) => Some(
            TodoView {
                namespace: row.namespace,
                id: row.id,
                content: row.content,
                status,
                created_at: row.created_at,
                updated_at: row.updated_at,
            },
        ),
        None => None,
    }
}

impl TodoEntity {
    /// The row to write for `todo` at clock reading `now`. Whatever
    /// `updated_at` the todo carries, the row is stamped with `now`.
    pub fn from_todo_at(todo: Todo, now: i64) -> (row: TodoEntity)
        ensures
            row@ == encoded(todo@, now as int),
    {
        let status = todo.status.to_string();
        TodoEntity {
            namespace: todo.id.0,
            id: todo.id.1,
            content: todo.content,
            status,
            created_at: todo.created_at,
            updated_at: now,
        }
    }

    /// The row to write for `todo`, stamped with the current time.
    pub fn from_todo(todo: Todo) -> (row: TodoEntity)
        ensures
            row@ == encoded(todo@, row@.updated_at),
    {
        let now: i64 = now_micros();
        TodoEntity::from_todo_at(todo, now)
    }

    /// The todo that the row stands for. A status text that is no canonical
    /// name shows a damaged store and is reported with the text.
    pub fn into_todo(self) -> (todo: Result<Todo, TodoError>)
        ensures
            match decoded(self@) {
                Some(view) => todo matches Ok(value) && value@ == view,
                None => todo matches Err(TodoError::InvalidStatusFromStr(raw)) && raw@
                    == self@.status,
            },
    {
        match TodoStatus::from_str(self.status.as_str()) {
            Ok(status) => Ok(
                Todo {
                    id: (self.namespace, self.id),
                    content: self.content,
                    status,
                    created_at: self.created_at,
                    updated_at: self.updated_at,
                },
            ),
            Err(error) => Err(error),
        }
    }
}

/// Whether a bulk delete removed as many rows as ids were asked for.
pub fn deleted_all(rows_deleted: u64, requested: usize) -> (complete: bool)
    ensures
        complete == (rows_deleted as int == requested as int),
{
    rows_deleted == requested as u64
}

/// A todo written as a row and read back is the same todo, stamped with the
/// time of the write.
pub proof fn lemma_row_round_trip(todo: TodoView, now: int)
    ensures
        decoded(encoded(todo, now)) == Some(TodoView { updated_at: now, ..todo }),
{
    crate::status::lemma_canonical_round_trip(todo.status);
}

} // verus!
