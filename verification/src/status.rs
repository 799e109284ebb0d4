//! The closed set of lifecycle states and their two textual encodings.

use vstd::prelude::*;
use crate::error::TodoError;

verus! {

/// Where an item stands in its lifecycle.
#[derive(Clone, Copy, Debug, PartialEq, Eq, Structural)]
pub enum TodoStatus {
    Todo,
    Done,
    Archived,
    Deleted,
}

/// The name under which a status is persisted.
pub open spec fn canonical_name(status: TodoStatus) -> Seq<char> {
    match status {
        TodoStatus::Todo => "Todo"@,
        TodoStatus::Done => "Done"@,
        TodoStatus::Archived => "Archived"@,
        TodoStatus::Deleted => "Deleted"@,
    }
}

/// The token that stands for a status on the wire.
pub open spec fn wire_name(status: TodoStatus) -> Seq<char> {
    match status {
        TodoStatus::Todo => "todo"@,
        TodoStatus::Done => "done"@,
        TodoStatus::Archived => "archived"@,
        TodoStatus::Deleted => "deleted"@,
    }
}

/// The status that a persisted name stands for, if any.
pub open spec fn parse_canonical(raw: Seq<char>) -> Option<TodoStatus> {
    if raw == "Todo"@ {
        Some(TodoStatus::Todo)
    } else if raw == "Done"@ {
        Some(TodoStatus::Done)
    } else if raw == "Archived"@ {
        Some(TodoStatus::Archived)
    } else if raw == "Deleted"@ {
        Some(TodoStatus::Deleted)
    } else {
        None
    }
}

/// The status that a wire token stands for, if any.
pub open spec fn parse_wire(raw: Seq<char>) -> Option<TodoStatus> {
    if raw == "todo"@ {
        Some(TodoStatus::Todo)
    } else if raw == "done"@ {
        Some(TodoStatus::Done)
    } else if raw == "archived"@ {
        Some(TodoStatus::Archived)
    } else if raw == "deleted"@ {
        Some(TodoStatus::Deleted)
    } else {
        None
    }
}

/// Whether two strings hold the same characters.
pub fn same_text(left: &str, right: &str) -> (same: bool)
    ensures
        same == (left@ == right@),
{
    left.to_owned() == right.to_owned()
}

impl TodoStatus {
    /// The canonical, capitalised name, as it is persisted.
    pub fn to_string(&self) -> (name: String)
        ensures
            name@ == canonical_name(*self),
    {
        match self {
            TodoStatus::Todo => "Todo".to_string(),
            TodoStatus::Done => "Done".to_string(),
            TodoStatus::Archived => "Archived".to_string(),
            TodoStatus::Deleted => "Deleted".to_string(),
        }
    }

    /// Decodes a persisted name. Any text but the four canonical names is
    /// reported with the text itself.
    pub fn from_str(s: &str) -> (parsed: Result<TodoStatus, TodoError>)
        ensures
            match parse_canonical(s@) {
                Some(status) => parsed == Ok::<TodoStatus, TodoError>(status),
                None => parsed matches Err(TodoError::InvalidStatusFromStr(raw)) && raw@ == s@,
            },
    {
        if same_text(s, "Todo") {
            Ok(TodoStatus::Todo)
        } else if same_text(s, "Done") {
            Ok(TodoStatus::Done)
        } else if same_text(s, "Archived") {
            Ok(TodoStatus::Archived)
        } else if same_text(s, "Deleted") {
            Ok(TodoStatus::Deleted)
        } else {
            Err(TodoError::InvalidStatusFromStr(s.to_owned()))
        }
    }

    /// The lowercase token that stands for the status on the wire.
    pub fn to_wire(&self) -> (token: String)
        ensures
            token@ == wire_name(*self),
    {
        match self {
            TodoStatus::Todo => "todo".to_string(),
            TodoStatus::Done => "done".to_string(),
            TodoStatus::Archived => "archived".to_string(),
            TodoStatus::Deleted => "deleted".to_string(),
        }
    }

    /// Decodes a wire token; `None` for any text but the four tokens.
    pub fn from_wire(token: &str) -> (parsed: Option<TodoStatus>)
        ensures
            parsed == parse_wire(token@),
    {
        if same_text(token, "todo") {
            Some(TodoStatus::Todo)
        } else if same_text(token, "done") {
            Some(TodoStatus::Done)
        } else if same_text(token, "archived") {
            Some(TodoStatus::Archived)
        } else if same_text(token, "deleted") {
            Some(TodoStatus::Deleted)
        } else {
            None
        }
    }
}

/// Decoding the canonical name of a status gives that status back, so the
/// four names are pairwise distinct.
pub proof fn lemma_canonical_round_trip(status: TodoStatus)
    ensures
        parse_canonical(canonical_name(status)) == Some(status),
{
    reveal_strlit("Todo");
    reveal_strlit("Done");
    reveal_strlit("Archived");
    reveal_strlit("Deleted");
    assert("Todo"@.len() == 4 && "Done"@.len() == 4);
    assert("Todo"@[0] == 'T' && "Done"@[0] == 'D');
    assert("Archived"@.len() == 8 && "Deleted"@.len() == 7);
}

/// Decoding the wire token of a status gives that status back.
pub proof fn lemma_wire_round_trip(status: TodoStatus)
    ensures
        parse_wire(wire_name(status)) == Some(status),
{
    reveal_strlit("todo");
    reveal_strlit("done");
    reveal_strlit("archived");
    reveal_strlit("deleted");
    assert("todo"@.len() == 4 && "done"@.len() == 4);
    assert("todo"@[0] == 't' && "done"@[0] == 'd');
    assert("archived"@.len() == 8 && "deleted"@.len() == 7);
}

} // verus!
