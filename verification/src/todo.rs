//! The todo entity, its identity and the sparse patch applied to it.

use vstd::prelude::*;
use crate::clock::now_micros;
use crate::status::TodoStatus;

verus! {

/// The identity of a todo: its namespace, then its id within that namespace.
pub type TodoID = (String, i32);

/// One todo item. Timestamps are microseconds since the Unix epoch.
#[derive(Debug, PartialEq, Eq)]
pub struct Todo {
    pub id: TodoID,
    pub content: String,
    pub status: TodoStatus,
    pub created_at: i64,
    pub updated_at: i64,
}

/// What a todo is, as plain mathematical values.
pub ghost struct TodoView {
    pub namespace: Seq<char>,
    pub id: int,
    pub content: Seq<char>,
    pub status: TodoStatus,
    pub created_at: int,
    pub updated_at: int,
}

impl View for Todo {
    type V = TodoView;

    open spec fn view(&self) -> TodoView {
        TodoView {
            namespace: self.id.0@,
            id: self.id.1 as int,
            content: self.content@,
            status: self.status,
            created_at: self.created_at as int,
            updated_at: self.updated_at as int,
        }
    }
}

/// A sparse patch: an absent field leaves the entity's field as it is.
#[derive(Debug, PartialEq, Eq)]
pub struct UpdateTodo {
    pub content: Option<String>,
    pub status: Option<TodoStatus>,
}

/// The entity that results from laying a patch over `current`.
pub open spec fn patched(
    current: TodoView,
    content: Option<Seq<char>>,
    status: Option<TodoStatus>,
) -> TodoView {
    TodoView {
        content: match content {
            Some(text) => text,
            None => current.content,
        },
        status: match status {
            Some(value) => value,
            None => current.status,
        },
        ..current
    }
}

/// The entity that `Todo::create` builds at clock reading `now`: not yet
/// stored, hence id 0, and always in status `Todo`.
pub open spec fn fresh(namespace: Seq<char>, content: Seq<char>, now: int) -> TodoView {
    TodoView {
        namespace,
        id: 0,
        content,
        status: TodoStatus::Todo,
        created_at: now,
        updated_at: now,
    }
}

impl Clone for Todo {
    fn clone(&self) -> (copy: Self)
        ensures
            copy@ == self@,
    {
        Todo {
            id: (self.id.0.clone(), self.id.1),
            content: self.content.clone(),
            status: self.status,
            created_at: self.created_at,
            updated_at: self.updated_at,
        }
    }
}

impl Todo {
    /// A todo for `namespace` that no store holds yet, stamped with the
    /// clock's reading `now`.
    pub fn create_at(namespace: &str, content: &str, now: i64) -> (todo: Todo)
        ensures
            todo@ == fresh(namespace@, content@, now as int),
    {
        Todo {
            id: (namespace.to_owned(), 0),
            content: content.to_owned(),
            status: TodoStatus::Todo,
            created_at: now,
            updated_at: now,
        }
    }

    /// A todo for `namespace` that no store holds yet, stamped with the
    /// current time. Whatever the content says, the status is `Todo`.
    pub fn create(namespace: &str, content: &str) -> (todo: Todo)
        ensures
            todo@ == fresh(namespace@, content@, todo@.created_at),
    {
        let now: i64 = now_micros();
        Todo::create_at(namespace, content, now)
    }
}

impl Default for Todo {
    /// An empty todo in the namespace `default`, stamped with the current time.
    fn default() -> (todo: Todo)
        ensures
            todo@ == fresh("default"@, Seq::<char>::empty(), todo@.created_at),
    {
        let now: i64 = now_micros();
        Todo {
            id: ("default".to_string(), 0),
            content: String::new(),
            status: TodoStatus::Todo,
            created_at: now,
            updated_at: now,
        }
    }
}

impl UpdateTodo {
    /// The content that the patch names, as plain characters.
    pub open spec fn content_view(&self) -> Option<Seq<char>> {
        match self.content {
            Some(text) => Some(text@),
            None => None,
        }
    }

    /// The entity that results from laying this patch over `current`.
    pub open spec fn patch(&self, current: TodoView) -> TodoView {
        patched(current, self.content_view(), self.status)
    }

    /// Whether the patch names no field at all.
    pub fn is_empty(&self) -> (empty: bool)
        ensures
            empty == (self.content is None && self.status is None),
    {
        self.content.is_none() && self.status.is_none()
    }

    /// Lays the patch over `current`: each field that the patch names replaces
    /// the entity's, the others stay. No transition rule is consulted.
    pub fn apply(self, current: Todo) -> (next: Todo)
        ensures
            next@ == self.patch(current@),
    {
        let Todo { id, content, status, created_at, updated_at } = current;
        let content = match self.content {
            Some(text) => text,
            None => content,
        };
        let status = match self.status {
            Some(value) => value,
            None => status,
        };
        Todo { id, content, status, created_at, updated_at }
    }
}

} // verus!
