//! Verified core of a small JSON web API: response shaping, the cookie guard
//! in front of protected routes, the decisions of the auth and catalog
//! endpoints, and an in-memory todo store.
use vstd::prelude::*;

pub mod controllers;
pub mod helpers;
pub mod middlewares;
pub mod structs;

verus! {
} // verus!
