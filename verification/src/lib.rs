//! Backend-agnostic core of a SQL Server adapter for a database browser:
//! SQL text for catalog and page queries, coercion of driver cells into
//! display strings, metadata rows, and the schema tree of a table listing.

pub mod catalog;
pub mod coercion;
pub mod grouping;
pub mod metadata;
pub mod order;
pub mod query;
pub mod records;
pub mod rows;
pub mod schema_laws;
pub mod schema_tree;
pub mod statement;
pub mod text;
pub mod tree;

use vstd::prelude::*;

verus! {

/// The number of seconds after which waiting for a connection of the pool
/// is given up.
pub const ACQUIRE_TIMEOUT_SECONDS: u64 = 5;

} // verus!
