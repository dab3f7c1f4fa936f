//! The records that the endpoints read from and write to the database.
pub mod auth;
pub mod product;
pub mod spare_part;
pub mod todo;
