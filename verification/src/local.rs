//! Todos that a client keeps for itself, outside any store.

use vstd::prelude::*;
use crate::status::TodoStatus;

verus! {

/// A todo held on the client alone: it has no namespace and no timestamps.
#[derive(Debug, PartialEq, Eq)]
pub struct Todo {
    pub id: i32,
    pub content: String,
    pub status: TodoStatus,
}

/// What a local todo is, as plain values.
pub ghost struct LocalView {
    pub id: i32,
    pub content: Seq<char>,
    pub status: TodoStatus,
}

impl View for Todo {
    type V = LocalView;

    open spec fn view(&self) -> LocalView {
        LocalView { id: self.id, content: self.content@, status: self.status }
    }
}

impl Clone for Todo {
    fn clone(&self) -> (copy: Self)
        ensures
            copy@ == self@,
    {
        Todo { id: self.id, content: self.content.clone(), status: self.status }
    }
}

/// The local todo made for position `id`: the position cut down to 32 bits
/// as its id, and status `Todo`.
pub open spec fn created(id: usize, content: Seq<char>) -> LocalView {
    LocalView { id: id as i32, content, status: TodoStatus::Todo }
}

/// A new local todo. Its id is `id` cut down to the low 32 bits.
pub fn create_todo(id: &usize, content: &str) -> (todo: Todo)
    ensures
        todo@ == created(*id, content@),
{
    Todo {
        id: #[verifier::truncate]
        (*id as i32),
        status: TodoStatus::Todo,
        content: content.to_owned(),
    }
}

} // verus!
