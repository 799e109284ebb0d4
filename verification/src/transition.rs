//! The status state machine: which move each checked operation makes, and
//! from where.
//!
//! | operation | from       | to         |
//! |-----------|------------|------------|
//! | toggle    | `Todo`     | `Done`     |
//! | toggle    | `Done`     | `Todo`     |
//! | archive   | `Done`     | `Archived` |
//! | delete    | `Archived` | `Deleted`  |
//!
//! From any other status the operation is refused, and the error names the
//! status found and the target that was refused: `Todo` for a toggle,
//! `Archived` for an archive, `Deleted` for a delete.

use vstd::prelude::*;
use crate::error::TodoError;
use crate::status::TodoStatus;
use crate::todo::{Todo, TodoView};

verus! {

/// The checked operations that move a todo through its lifecycle.
#[derive(Clone, Copy, Debug, PartialEq, Eq, Structural)]
pub enum Transition {
    /// `Todo` to `Done` and back.
    Toggle,
    /// `Done` to `Archived`.
    Archive,
    /// `Archived` to `Deleted`. The row stays; only the status moves.
    Delete,
}

/// Where `operation` leads from `current`, if it may start there.
pub open spec fn target(operation: Transition, current: TodoStatus) -> Option<TodoStatus> {
    match (operation, current) {
        (Transition::Toggle, TodoStatus::Todo) => Some(TodoStatus::Done),
        (Transition::Toggle, TodoStatus::Done) => Some(TodoStatus::Todo),
        (Transition::Archive, TodoStatus::Done) => Some(TodoStatus::Archived),
        (Transition::Delete, TodoStatus::Archived) => Some(TodoStatus::Deleted),
        _ => None,
    }
}

/// The target that a refused `operation` names in its error.
pub open spec fn refused_target(operation: Transition) -> TodoStatus {
    match operation {
        Transition::Toggle => TodoStatus::Todo,
        Transition::Archive => TodoStatus::Archived,
        Transition::Delete => TodoStatus::Deleted,
    }
}

/// The outcome of `operation` on a todo whose status is `current`.
pub open spec fn step(operation: Transition, current: TodoStatus) -> Result<TodoStatus, TodoError> {
    match target(operation, current) {
        Some(next) => Ok(next),
        None => Err(TodoError::InvalidStatusTransition(current, refused_target(operation))),
    }
}

/// The outcome of `operation` on a whole entity: the status moves, nothing
/// else does.
pub open spec fn step_entity(operation: Transition, current: TodoView) -> Result<TodoView, TodoError> {
    match step(operation, current.status) {
        Ok(next) => Ok(TodoView { status: next, ..current }),
        Err(error) => Err(error),
    }
}

impl Transition {
    /// Validates the operation against `current` and gives the next status,
    /// or the error that names `current` and the refused target.
    pub fn next_status(self, current: TodoStatus) -> (outcome: Result<TodoStatus, TodoError>)
        ensures
            outcome == step(self, current),
    {
        match (self, current) {
            (Transition::Toggle, TodoStatus::Todo) => Ok(TodoStatus::Done),
            (Transition::Toggle, TodoStatus::Done) => Ok(TodoStatus::Todo),
            (Transition::Toggle, _) => Err(
                TodoError::InvalidStatusTransition(current, TodoStatus::Todo),
            ),
            (Transition::Archive, TodoStatus::Done) => Ok(TodoStatus::Archived),
            (Transition::Archive, _) => Err(
                TodoError::InvalidStatusTransition(current, TodoStatus::Archived),
            ),
            (Transition::Delete, TodoStatus::Archived) => Ok(TodoStatus::Deleted),
            (Transition::Delete, _) => Err(
                TodoError::InvalidStatusTransition(current, TodoStatus::Deleted),
            ),
        }
    }

    /// Applies the operation to `current`, the entity as the store holds it
    /// now: the status moves as the table above says and every other field stays.
    pub fn apply(self, current: Todo) -> (outcome: Result<Todo, TodoError>)
        ensures
            match step_entity(self, current@) {
                Ok(next) => outcome matches Ok(todo) && todo@ == next,
                Err(error) => outcome == Err::<Todo, TodoError>(error),
            },
    {
        match self.next_status(current.status) {
            Ok(next) => {
                let Todo { id, content, status: _, created_at, updated_at } = current;
                Ok(Todo { id, content, status: next, created_at, updated_at })
            },
            Err(error) => Err(error),
        }
    }
}

/// Toggling twice from `Todo` or `Done` leads back to the start.
pub proof fn lemma_toggle_is_involution(start: TodoStatus)
    requires
        start == TodoStatus::Todo || start == TodoStatus::Done,
    ensures
        step(Transition::Toggle, start) matches Ok(middle) && step(Transition::Toggle, middle)
            == Ok::<TodoStatus, TodoError>(start),
{
}

/// Toggling an entity twice from `Todo` or `Done` gives the entity back.
pub proof fn lemma_toggle_twice_restores(start: TodoView)
    requires
        start.status == TodoStatus::Todo || start.status == TodoStatus::Done,
    ensures
        step_entity(Transition::Toggle, start) matches Ok(middle) && step_entity(
            Transition::Toggle,
            middle,
        ) == Ok::<TodoView, TodoError>(start),
{
}

/// Toggling from `Archived` or `Deleted` is refused.
pub proof fn lemma_toggle_refused_past_done(current: TodoStatus)
    requires
        current == TodoStatus::Archived || current == TodoStatus::Deleted,
    ensures
        step(Transition::Toggle, current) == Err::<TodoStatus, TodoError>(
            TodoError::InvalidStatusTransition(current, TodoStatus::Todo),
        ),
{
}

/// Each operation starts from the statuses of the table above and from no other:
/// toggle from `Todo` and `Done`, archive from `Done`, delete from `Archived`.
/// From anywhere else it fails, and the error names the current status and
/// the refused target.
pub proof fn lemma_transition_table(operation: Transition, current: TodoStatus)
    ensures
        step(operation, current) is Ok <==> match operation {
            Transition::Toggle => current == TodoStatus::Todo || current == TodoStatus::Done,
            Transition::Archive => current == TodoStatus::Done,
            Transition::Delete => current == TodoStatus::Archived,
        },
        step(operation, current) is Err ==> step(operation, current) == Err::<
            TodoStatus,
            TodoError,
        >(TodoError::InvalidStatusTransition(current, refused_target(operation))),
        operation == Transition::Archive && step(operation, current) is Ok ==> step(
            operation,
            current,
        ) == Ok::<TodoStatus, TodoError>(TodoStatus::Archived),
        operation == Transition::Delete && step(operation, current) is Ok ==> step(
            operation,
            current,
        ) == Ok::<TodoStatus, TodoError>(TodoStatus::Deleted),
{
}

} // verus!
