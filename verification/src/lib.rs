//! A multi-tenant todo manager: the status lifecycle, the namespace-scoped
//! identity model and an in-memory store, with every rule stated as a
//! contract and proved.

use vstd::prelude::*;

pub mod client;
pub mod clock;
pub mod domain;
pub mod entity;
pub mod error;
pub mod greeting;
pub mod input;
pub mod laws;
pub mod local;
pub mod model;
pub mod namespace;
pub mod repository;
pub mod retry;
pub mod state;
pub mod status;
pub mod todo;
pub mod transition;
pub mod view;

verus! {

/// Demands a proof that two slices hold equal elements in equal order: a call
/// verifies only where they do, so nothing is left to compare at run time.
pub fn assert_vec<T: PartialEq + std::fmt::Debug>(a: &[T], b: &[T])
    requires
        a@ == b@,
{
}

} // verus!
