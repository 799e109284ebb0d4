//! What a client makes of the text that a user typed.

use vstd::prelude::*;
use vstd::string::StrSliceExecFns;
use vstd::string::StringExecFns;
use crate::model::UpdateTodoRequest;
use crate::state::TodoAction;

verus! {

/// The text without the white space at its two ends, as std's `str::trim`
/// cuts it.
pub uninterp spec fn trimmed(text: Seq<char>) -> Seq<char>;

/// Cuts the white space off both ends with std's `str::trim`.
///
/// Trusted: the result is what `trimmed` names, a function of the text alone.
#[verifier::external_body]
fn trim<'a>(text: &'a str) -> (cut: &'a str)
    ensures
        cut@ == trimmed(text@),
{
    text.trim()
}

/// The content to submit for a text that was trimmed already: the text
/// itself, or nothing where it is empty.
pub fn accept(cut: &str) -> (content: Option<String>)
    ensures
        match content {
            Some(text) => text@ == cut@ && cut@.len() > 0,
            None => cut@.len() == 0,
        },
{
    if cut.unicode_len() == 0 {
        None
    } else {
        Some(String::from_str(cut))
    }
}

/// The action for a text typed into the field for new todos: to add a todo
/// with the trimmed text, or none where nothing but white space was typed.
pub fn add_todo(input: &str) -> (action: Option<TodoAction>)
    ensures
        match action {
            Some(add) => {
                &&& trimmed(input@).len() > 0
                &&& add matches TodoAction::Add(content)
                &&& content@ == trimmed(input@)
            },
            None => trimmed(input@).len() == 0,
        },
{
    match accept(trim(input)) {
        Some(content) => Some(TodoAction::Add(content)),
        None => None,
    }
}

/// The action for a text typed over the todo with `id`: to replace its
/// content by the trimmed text and leave its status, or none where nothing
/// but white space was typed.
pub fn edit_todo(id: i32, input: &str) -> (action: Option<TodoAction>)
    ensures
        match action {
            Some(update) => {
                &&& trimmed(input@).len() > 0
                &&& update matches TodoAction::Update(target, patch)
                &&& target == id
                &&& patch.status is None
                &&& patch.content matches Some(content)
                &&& content@ == trimmed(input@)
            },
            None => trimmed(input@).len() == 0,
        },
{
    match accept(trim(input)) {
        Some(content) => Some(
            TodoAction::Update(id, UpdateTodoRequest { content: Some(content), status: None }),
        ),
        None => None,
    }
}

} // verus!
