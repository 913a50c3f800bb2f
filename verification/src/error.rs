//! The ways in which an operation on the store can fail.

use vstd::prelude::*;

verus! {

/// Why an operation did not take place.
#[derive(Clone, Copy, Debug, PartialEq, Eq, Structural)]
pub enum DbError {
    /// The epic or story named does not exist, or the story is not listed
    /// under the epic named.
    NotFound,
    /// The medium could not be read or written.
    StorageError,
    /// The medium was read, but does not hold a snapshot.
    DeserializationError,
}

} // verus!
