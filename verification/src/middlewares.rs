//! Request guards.
pub mod cookie;
