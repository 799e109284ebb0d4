//! The namespace that a client works in when nobody gave it one.

use vstd::prelude::*;

verus! {

/// A new random namespace: `uuid::Uuid::new_v4`, written out by its
/// `to_string`.
///
/// Trusted. Which name comes is left open; claimed is only the length of the
/// hyphenated form, 36 characters. `new_v4` itself panics only where the
/// system's source of random numbers fails.
#[verifier::external_body]
fn generate() -> (name: String)
    ensures
        name@.len() == 36,
{
    uuid::Uuid::new_v4().to_string()
}

/// The namespace of a client, given what it had stored: the stored name, or
/// else a new random one. The flag tells whether the name is new and is still
/// to be stored.
pub fn get(stored: Option<String>) -> (choice: (String, bool))
    ensures
        match stored {
            Some(name) => choice.0@ == name@ && !choice.1,
            None => choice.0@.len() == 36 && choice.1,
        },
{
    match stored {
        Some(name) => (name, false),
        None => (generate(), true),
    }
}

} // verus!
