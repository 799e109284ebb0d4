//! The values that cross the wire: requests, the response and the namespace
//! of the caller.

use vstd::prelude::*;
use crate::status::TodoStatus;
use crate::todo::{Todo, TodoView, UpdateTodo};

verus! {

/// The ids that a bulk clear names.
#[derive(Debug, PartialEq, Eq)]
pub struct IdsRequest<T> {
    pub ids: Vec<T>,
}

/// The body of a create request.
#[derive(Debug, PartialEq, Eq)]
pub struct CreateTodoRequest {
    pub content: String,
}

/// The body of an update request: a sparse patch.
#[derive(Debug, PartialEq, Eq)]
pub struct UpdateTodoRequest {
    pub content: Option<String>,
    pub status: Option<TodoStatus>,
}

/// The filter of a listing.
#[derive(Clone, Copy, Debug, PartialEq, Eq)]
pub struct GetTodosQuery {
    pub status: Option<TodoStatus>,
}

/// An entity as it is handed out.
#[derive(Debug, PartialEq, Eq)]
pub struct TodoResponse {
    pub namespace: String,
    pub id: i32,
    pub content: String,
    pub status: TodoStatus,
    pub created_at: i64,
    pub updated_at: i64,
}

impl View for TodoResponse {
    type V = TodoView;

    open spec fn view(&self) -> TodoView {
        TodoView {
            namespace: self.namespace@,
            id: self.id as int,
            content: self.content@,
            status: self.status,
            created_at: self.created_at as int,
            updated_at: self.updated_at as int,
        }
    }
}

/// The namespace that a request acts in.
#[derive(Debug, PartialEq, Eq)]
pub struct Namespace(String);

impl View for Namespace {
    type V = Seq<char>;

    closed spec fn view(&self) -> Seq<char> {
        self.0@
    }
}

/// The namespace that a request names by its header, or `default` where it
/// names none.
pub open spec fn namespace_of(header: Option<Seq<char>>) -> Seq<char> {
    match header {
        Some(name) => name,
        None => "default"@,
    }
}

impl Clone for Namespace {
    fn clone(&self) -> (copy: Self)
        ensures
            copy@ == self@,
    {
        Namespace(self.0.clone())
    }
}

impl Namespace {
    /// The namespace of a request with the given header value.
    pub fn resolve(header: Option<&str>) -> (namespace: Namespace)
        ensures
            namespace@ == namespace_of(
                match header {
                    Some(name) => Some(name@),
                    None => None,
                },
            ),
    {
        match header {
            Some(name) => Namespace(name.to_owned()),
            None => Namespace("default".to_string()),
        }
    }

    /// The namespace as text.
    pub fn get(&self) -> (name: String)
        ensures
            name@ == self@,
    {
        self.0.clone()
    }
}

impl UpdateTodoRequest {
    /// Whether the request names no field: such a request is refused before
    /// it reaches the domain.
    pub fn is_empty(&self) -> (empty: bool)
        ensures
            empty == (self.content is None && self.status is None),
    {
        self.content.is_none() && self.status.is_none()
    }

    /// The patch that the request asks for.
    pub fn into_update(self) -> (patch: UpdateTodo)
        ensures
            patch.content == self.content,
            patch.status == self.status,
    {
        UpdateTodo { content: self.content, status: self.status }
    }
}

impl TodoResponse {
    /// The response that shows `todo`: every field, unchanged.
    pub fn from_todo(todo: Todo) -> (response: TodoResponse)
        ensures
            response@ == todo@,
    {
        TodoResponse {
            namespace: todo.id.0,
            id: todo.id.1,
            content: todo.content,
            status: todo.status,
            created_at: todo.created_at,
            updated_at: todo.updated_at,
        }
    }
}

impl<T> IdsRequest<T> {
    /// Whether the request names no id: a clear of nothing is skipped.
    pub fn is_empty(&self) -> (empty: bool)
        ensures
            empty == (self.ids@.len() == 0),
    {
        self.ids.len() == 0
    }
}

} // verus!
