//! The failures that the domain and the store report.

use vstd::prelude::*;
use vstd::string::StringExecFns;
use crate::status::{canonical_name, TodoStatus};

verus! {

/// No row matches the requested namespace and id.
#[derive(Clone, Copy, Debug, PartialEq, Eq, Structural)]
pub struct RecordNotFound;

/// Why an operation on a todo was refused.
#[derive(Debug, PartialEq, Eq)]
pub enum TodoError {
    /// The requested identity has no matching row.
    RecordNotFound,
    /// A checked transition was attempted from a status that does not allow
    /// it. Holds the current status, then the attempted target.
    InvalidStatusTransition(TodoStatus, TodoStatus),
    /// A stored status name stands for no known status. Holds the raw text.
    InvalidStatusFromStr(String),
    /// The namespace has no free id left for a new row.
    IdsExhausted,
}

/// How the transport layer answers a failure.
#[derive(Clone, Copy, Debug, PartialEq, Eq, Structural)]
pub enum ErrorClass {
    /// The requested item does not exist.
    NotFound,
    /// The request asked for what the rules refuse.
    ClientError,
    /// The fault lies with the store, not with the request.
    ServerError,
}

/// The class of an error: a missing row is not found, a refused transition
/// is the client's error, and everything else is a fault of the server.
pub open spec fn class_of(error: TodoError) -> ErrorClass {
    match error {
        TodoError::RecordNotFound => ErrorClass::NotFound,
        TodoError::InvalidStatusTransition(_, _) => ErrorClass::ClientError,
        TodoError::InvalidStatusFromStr(_) => ErrorClass::ServerError,
        TodoError::IdsExhausted => ErrorClass::ServerError,
    }
}

/// The text that describes an error.
pub open spec fn error_message(error: TodoError) -> Seq<char> {
    match error {
        TodoError::RecordNotFound => "record not found"@,
        TodoError::InvalidStatusTransition(from, to) => "invalid status "@ + canonical_name(from)
            + " -> "@ + canonical_name(to),
        TodoError::InvalidStatusFromStr(raw) => "invalid status from str "@ + raw@,
        TodoError::IdsExhausted => "no id left in namespace"@,
    }
}

impl Clone for TodoError {
    fn clone(&self) -> (copy: Self)
        ensures
            match (*self, copy) {
                (TodoError::InvalidStatusFromStr(raw), TodoError::InvalidStatusFromStr(text)) => raw@
                    == text@,
                _ => copy == *self,
            },
    {
        match self {
            TodoError::RecordNotFound => TodoError::RecordNotFound,
            TodoError::InvalidStatusTransition(from, to) => TodoError::InvalidStatusTransition(
                *from,
                *to,
            ),
            TodoError::InvalidStatusFromStr(raw) => TodoError::InvalidStatusFromStr(raw.clone()),
            TodoError::IdsExhausted => TodoError::IdsExhausted,
        }
    }
}

impl RecordNotFound {
    /// The text that describes the failure.
    pub fn message(&self) -> (text: String)
        ensures
            text@ == "record not found"@,
    {
        "record not found".to_string()
    }
}

impl TodoError {
    /// Lifts a failed lookup into the domain's error type.
    pub fn not_found(cause: RecordNotFound) -> (error: TodoError)
        ensures
            error == TodoError::RecordNotFound,
    {
        match cause {
            RecordNotFound => TodoError::RecordNotFound,
        }
    }

    /// How the transport layer answers this error.
    pub fn class(&self) -> (class: ErrorClass)
        ensures
            class == class_of(*self),
    {
        match self {
            TodoError::RecordNotFound => ErrorClass::NotFound,
            TodoError::InvalidStatusTransition(_, _) => ErrorClass::ClientError,
            TodoError::InvalidStatusFromStr(_) => ErrorClass::ServerError,
            TodoError::IdsExhausted => ErrorClass::ServerError,
        }
    }

    /// True for the error that a missing row gives.
    pub fn is_not_found(&self) -> (found: bool)
        ensures
            found == (*self matches TodoError::RecordNotFound),
    {
        match self {
            TodoError::RecordNotFound => true,
            _ => false,
        }
    }

    /// The text that describes the error.
    pub fn message(&self) -> (text: String)
        ensures
            text@ == error_message(*self),
    {
        match self {
            TodoError::RecordNotFound => "record not found".to_string(),
            TodoError::InvalidStatusTransition(from, to) => {
                let text = "invalid status ".to_string();
                let text = text.concat(from.to_string().as_str());
                let text = text.concat(" -> ");
                text.concat(to.to_string().as_str())
            },
            TodoError::InvalidStatusFromStr(raw) => {
                "invalid status from str ".to_string().concat(raw.as_str())
            },
            TodoError::IdsExhausted => "no id left in namespace".to_string(),
        }
    }
}

} // verus!
