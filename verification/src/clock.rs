//! The wall clock, read as microseconds since the Unix epoch.

use vstd::prelude::*;

verus! {

/// Reads the wall clock through `chrono::Utc::now` and
/// `DateTime::timestamp_micros`.
///
/// Trusted, and nothing is claimed of the reading: two calls may give any two
/// values, in any order. `Utc::now` itself panics only where the system clock
/// stands before 1970.
#[verifier::external_body]
pub(crate) fn now_micros() -> (now: i64) {
    chrono::Utc::now().timestamp_micros()
}

} // verus!
