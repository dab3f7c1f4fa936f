//! What a database query told the endpoint.
use vstd::prelude::*;

verus! {

/// The outcome of a query for at most one row.
pub enum Lookup<T> {
    /// The row.
    Found(T),
    /// No row matched.
    Missing,
    /// The query failed.
    Failed,
}

} // verus!
