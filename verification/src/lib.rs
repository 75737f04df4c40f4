//! A verified persistence core for a family-tree graph.
//!
//! The library models the two tables of the store — persons and the
//! directed, typed relationships between them — as sequences of rows with
//! unique identifiers, and proves the create/read/update/delete contract
//! over that model: duplicate inserts are rejected and change nothing,
//! updates of a missing row report `NotFound` and change nothing, deletes
//! are idempotent, and the two-sided endpoint query returns exactly the
//! relationships touching a person, in insertion order.
//!
//! Durable storage (the SQLite file behind the store) and the mutual
//! exclusion around the shared connection are the embedding program's
//! concern; this crate holds the data model, its invariants, and the
//! operation contracts.

pub mod errors;
pub mod laws;
pub mod person;
pub mod relationship;
pub mod store;
