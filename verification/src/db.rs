//! The repository: durable users, rooms and messages behind a SQLite
//! connection.

pub mod connection;
pub mod manage;
pub mod queries;
