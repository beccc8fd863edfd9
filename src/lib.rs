//! A small book catalogue backed by a relational table: the entity model,
//! the failure kinds of its persistence operations, the parameterized
//! statements that read and write the `book` table, and the decisions taken
//! on what the database hands back.

pub mod error;
pub mod laws;
pub mod model;
pub mod run_mode;
pub mod service;
pub mod sql;
pub mod statement;
