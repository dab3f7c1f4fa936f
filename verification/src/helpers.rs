//! Text comparison, database outcomes and the JSON envelope of every answer.
pub mod database;
pub mod response;
pub mod text;
