//! The decisions of each endpoint. Reading the request, talking to the
//! database and writing the answer happen around them.
pub mod auth;
pub mod fallback;
pub mod product;
pub mod spare_part;
pub mod todo;
pub mod user;
pub mod welcome;
