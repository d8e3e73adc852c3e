//! Data layer for a barangay record-keeping application.
//!
//! Ten flat record types are stored in a single-file relational database,
//! one table each, behind a uniform repository contract: fetch-all, insert,
//! update, delete, and an insert-or-update "save". The database itself is
//! reached through a small trusted layer over `rusqlite`; everything above
//! that layer, including the row encodings, the JSON list column of
//! households, and the insert-or-update dispatch, is verified.

use vstd::prelude::*;

pub mod api;
pub mod blotters;
pub mod certificates;
pub mod events;
pub mod households;
pub mod jsonlist;
pub mod migration;
pub mod officials;
pub mod residents;
pub mod schema;
pub mod settings;
pub mod store;
pub mod users;
pub mod values;

verus! {

/// Classifies the failures a repository operation can surface.
#[derive(Clone, Copy, PartialEq, Eq, Structural, Debug)]
pub enum ErrorKind {
    /// The database file or directory could not be opened or created.
    Connection,
    /// A migration statement was rejected by the storage engine.
    Schema,
    /// A read returned a malformed row.
    Query,
    /// A NOT-NULL or uniqueness constraint was violated on a write.
    Constraint,
    /// Any other storage-engine failure.
    Storage,
}

/// The single opaque error value every operation returns: a kind plus the
/// underlying engine's message.
#[derive(Debug)]
pub struct DbError {
    pub kind: ErrorKind,
    pub message: String,
}

} // verus!
