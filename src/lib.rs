//! Store serializable records as JSON documents in an SQLite table and query
//! them with a typed predicate language that compiles to a chain of common
//! table expressions.
pub mod database;
pub mod filter;
pub mod path;
pub mod query;
pub mod transform;
