//! Resolution of authorization entities (attributes and ancestors) from a
//! relational store, one entity at a time.
use vstd::prelude::*;

pub mod ancestor;
pub mod entity;
pub mod fetch_table;
pub mod query;
pub mod value;

verus! {

/// Marker for the SQLite dialect.
pub struct SQLiteSQLInfo;

} // verus!
