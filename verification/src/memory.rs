//! A backend that keeps the snapshot in memory, for use where no file is
//! wanted.

use crate::db::Database;
use crate::error::DbError;
use crate::state::{DBState, StateView};
use vstd::prelude::*;

verus! {

/// Holds the snapshot that was written last; the empty one before any write.
pub struct MockDB {
    last_written_state: DBState,
}

impl MockDB {
    /// A backend that holds the empty snapshot.
    pub fn new() -> (db: MockDB)
        ensures
            db.stored() == Some(StateView::empty()),
            db.reliable(),
    {
        MockDB { last_written_state: DBState::new() }
    }
}

impl Database for MockDB {
    closed spec fn stored(&self) -> Option<StateView> {
        Some(self.last_written_state@)
    }

    open spec fn reliable(&self) -> bool {
        true
    }

    /// Hands out a deep copy of the snapshot held. Never fails.
    fn read_db(&self) -> (r: Result<DBState, DbError>)
        ensures
            r is Ok,
    {
        Ok(self.last_written_state.clone())
    }

    /// Keeps a deep copy of `db_state`. Never fails.
    fn write_db(&mut self, db_state: &DBState) -> (r: Result<(), DbError>)
        ensures
            r is Ok,
    {
        self.last_written_state = db_state.clone();
        Ok(())
    }
}

} // verus!
