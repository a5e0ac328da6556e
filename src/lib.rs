//! Metadata client core for a lakehouse table format: entity records, the
//! partition commit fold, idempotent commit ingestion, query arguments and
//! result mapping, data-file listing, connection settings, and the bounded
//! retry policy around storage calls.
//!
//! Storage access itself (the connection, prepared statements, the wire
//! codec and the asynchronous client) is left to the application layer
//! around this library, which calls into it between storage calls.

use vstd::prelude::*;

pub mod commit;
pub mod config;
pub mod entity;
pub mod error;
pub mod files;
pub mod format;
pub mod handle;
pub mod ingest;
pub mod query;
pub mod retry;

verus! {

} // verus!
