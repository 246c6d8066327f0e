//! Verified core of a small user-table CRUD demonstration.
//!
//! The library owns the data that the demonstration sends to the database:
//! the user record values, the SQL statements with their bound parameters,
//! and the `LIKE` patterns used to filter by username. Connecting, awaiting
//! and printing live outside the library.

pub mod demo;
pub mod ids;
pub mod query;
pub mod sql;
pub mod user;
