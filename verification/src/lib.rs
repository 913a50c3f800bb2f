//! A small issue-tracker store: epics and their stories, kept as one snapshot
//! behind a storage backend and changed only by read-modify-write operations
//! that keep the references between the two kinds of record intact.
//!
//! - `models`: the records and their views.
//! - `state`: the snapshot, the six changes as functions on it, and its
//!   invariant.
//! - `db`: the backend trait and the repository on top of it.
//! - `memory`: the backend that keeps its snapshot in memory.
//! - `laws`: what each change guarantees, proved over the views.
//! - `history`: what any run of changes guarantees.
//! - `error`: the ways to fail.

pub mod db;
pub mod error;
pub mod history;
pub mod laws;
pub mod memory;
pub mod models;
pub mod state;
