//! The fixed replies of the server's liveness routes.

use vstd::prelude::*;
use crate::status::same_text;

verus! {

/// The reply of the root route.
pub fn index() -> (reply: String)
    ensures
        reply@ == "Hello Actix Web!"@,
{
    "Hello Actix Web!".to_string()
}

/// The reply of the ping route.
pub fn ping() -> (reply: String)
    ensures
        reply@ == "pong"@,
{
    "pong".to_string()
}

/// The path of the ping route.
pub fn ping_path() -> (path: &'static str)
    ensures
        path@ == "/ping"@,
{
    "/ping"
}

/// Whether a ping was answered as a live server answers it: with the reply of
/// `ping`. No answer at all counts as not alive.
pub fn is_pong(reply: Option<&str>) -> (alive: bool)
    ensures
        alive == (reply matches Some(text) && text@ == "pong"@),
{
    match reply {
        Some(text) => same_text(text, "pong"),
        None => false,
    }
}

} // verus!
