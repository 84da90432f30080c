//! The records exchanged with the backend.

pub mod database;
pub mod project;
pub mod user;
