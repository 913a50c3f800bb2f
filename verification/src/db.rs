//! The repository: six operations on the store, each one read of the whole
//! snapshot, one change of the copy in hand, and one write of the whole
//! snapshot. Nothing is kept between calls.

use crate::error::DbError;
use crate::models::{Epic, Status, Story};
use crate::state::{DBState, StateView};
use vstd::prelude::*;

verus! {

/// A medium that holds one snapshot and hands it out and takes it back whole.
///
/// The contracts below are what the repository relies on. An implementation
/// that Verus does not see is trusted to meet them; `stored` and `reliable`
/// are never called when the program runs, so such an implementation may
/// give them any body.
pub trait Database {
    /// The snapshot that the medium holds, if it holds a well-formed one.
    spec fn stored(&self) -> Option<StateView>;

    /// Whether reading and writing this medium cannot fail.
    spec fn reliable(&self) -> bool;

    /// Reads the snapshot. A snapshot that is returned is the stored one; a
    /// failure is one of the medium, and only an unreliable medium fails.
    fn read_db(&self) -> (r: Result<DBState, DbError>)
        ensures
            match r {
                Ok(state) => self.stored() == Some(state@),
                Err(e) => {
                    &&& !self.reliable()
                    &&& e != DbError::NotFound
                    &&& e == DbError::DeserializationError ==> self.stored() is None
                },
            },
    ;

    /// Replaces the stored snapshot by a copy of `db_state`. After success a
    /// read observes that snapshot; after a failure nothing is known of what
    /// the medium holds.
    fn write_db(&mut self, db_state: &DBState) -> (r: Result<(), DbError>)
        ensures
            final(self).reliable() == old(self).reliable(),
            match r {
                Ok(()) => final(self).stored() == Some(db_state@),
                Err(e) => !old(self).reliable() && e == DbError::StorageError,
            },
    ;
}

/// A boxed backend is a backend: every call goes on to what the box holds.
impl<D: Database + ?Sized> Database for Box<D> {
    open spec fn stored(&self) -> Option<StateView> {
        (**self).stored()
    }

    open spec fn reliable(&self) -> bool {
        (**self).reliable()
    }

    fn read_db(&self) -> (r: Result<DBState, DbError>) {
        (**self).read_db()
    }

    fn write_db(&mut self, db_state: &DBState) -> (r: Result<(), DbError>) {
        (**self).write_db(db_state)
    }
}

/// The repository. It owns its backend and nothing else.
pub struct JiraDatabase<D: Database> {
    pub database: D,
}

impl<D: Database> JiraDatabase<D> {
    /// The snapshot that the backend holds, if it holds a well-formed one.
    pub open spec fn snapshot(&self) -> Option<StateView> {
        self.database.stored()
    }

    /// Whether the backend cannot fail.
    pub open spec fn reliable(&self) -> bool {
        self.database.reliable()
    }

    /// Whether the backend holds a snapshot.
    pub open spec fn holds_snapshot(&self) -> bool {
        self.snapshot() is Some
    }

    /// Whether the backend holds a snapshot with an epic `epic_id`.
    pub open spec fn holds_epic(&self, epic_id: u32) -> bool {
        self.snapshot() matches Some(s) && s.epics.contains_key(epic_id)
    }

    /// Whether the backend holds a snapshot with a story `story_id`.
    pub open spec fn holds_story(&self, story_id: u32) -> bool {
        self.snapshot() matches Some(s) && s.stories.contains_key(story_id)
    }

    /// Whether the backend holds a snapshot in which the epic `epic_id` lists
    /// `story_id`.
    pub open spec fn lists(&self, epic_id: u32, story_id: u32) -> bool {
        self.snapshot() matches Some(s) && s.lists(epic_id, story_id)
    }

    /// Whether the stored snapshot, if there is one, can hand out another id.
    pub open spec fn has_room(&self) -> bool {
        self.snapshot() matches Some(s) ==> s.has_room()
    }

    /// Whether the stored snapshot, if there is one, meets the invariant of
    /// the store.
    pub open spec fn wf(&self) -> bool {
        self.snapshot() matches Some(s) ==> s.wf()
    }

    /// What holds after an operation that went from `self` to `after` failed
    /// with `e` for a reason of the medium, where `applies` says whether the
    /// stored snapshot allowed the operation: the medium is not a reliable
    /// one; where the stored content was no snapshot, or one that did not
    /// allow the operation, no write was attempted.
    pub open spec fn medium_failed(
        &self,
        after: &JiraDatabase<D>,
        e: DbError,
        applies: bool,
    ) -> bool {
        &&& !self.reliable()
        &&& e != DbError::NotFound
        &&& e == DbError::DeserializationError ==> self.snapshot() is None
        &&& e == DbError::DeserializationError || !applies ==> *after == *self
    }

    /// A repository on the backend given.
    pub fn new(database: D) -> (db: JiraDatabase<D>)
        ensures
            db.database == database,
    {
        JiraDatabase { database }
    }

    /// Reads the whole snapshot.
    pub fn read_db(&self) -> (r: Result<DBState, DbError>)
        ensures
            match r {
                Ok(state) => self.snapshot() == Some(state@),
                Err(e) => self.medium_failed(self, e, false),
            },
            self.reliable() ==> r is Ok,
    {
        self.database.read_db()
    }

    /// Stores `epic` under the next id and returns that id. The stored counter
    /// must not have reached the last `u32`.
    pub fn create_epic(&mut self, epic: Epic) -> (r: Result<u32, DbError>)
        requires
            old(self).has_room(),
        ensures
            final(self).reliable() == old(self).reliable(),
            match r {
                Ok(id) => {
                    &&& old(self).snapshot() matches Some(s)
                    &&& id == s.next_id()
                    &&& final(self).snapshot() == Some(s.create_epic(epic@))
                },
                Err(e) => old(self).medium_failed(final(self), e, old(self).holds_snapshot()),
            },
            old(self).reliable() ==> r is Ok,
            r is Ok && old(self).wf() && epic@.stories.len() == 0 ==> final(self).wf(),
    {
        let mut parsed = match self.database.read_db() {
            Ok(state) => state,
            Err(e) => {
                return Err(e);
            },
        };
        let new_id: u32 = parsed.create_epic(epic);
        match self.database.write_db(&parsed) {
            Ok(()) => Ok(new_id),
            Err(e) => Err(e),
        }
    }

    /// Stores `story` under the next id, adds that id at the end of the list of
    /// the epic `epic_id`, and returns the id. Without such an epic it fails
    /// with `NotFound` and writes nothing. The stored counter must not have
    /// reached the last `u32`.
    pub fn create_story(&mut self, story: Story, epic_id: u32) -> (r: Result<u32, DbError>)
        requires
            old(self).has_room(),
        ensures
            final(self).reliable() == old(self).reliable(),
            match r {
                Ok(id) => {
                    &&& old(self).snapshot() matches Some(s)
                    &&& s.epics.contains_key(epic_id)
                    &&& id == s.next_id()
                    &&& final(self).snapshot() == Some(s.create_story(story@, epic_id))
                },
                Err(DbError::NotFound) => {
                    &&& old(self).snapshot() matches Some(s)
                    &&& !s.epics.contains_key(epic_id)
                    &&& *final(self) == *old(self)
                },
                Err(e) => old(self).medium_failed(final(self), e, old(self).holds_epic(epic_id)),
            },
            old(self).reliable() ==> (r is Ok <==> old(self).holds_epic(epic_id)),
            r is Ok && old(self).wf() ==> final(self).wf(),
    {
        let mut parsed = match self.database.read_db() {
            Ok(state) => state,
            Err(e) => {
                return Err(e);
            },
        };
        match parsed.create_story(story, epic_id) {
            Ok(new_id) => match self.database.write_db(&parsed) {
                Ok(()) => Ok(new_id),
                Err(e) => Err(e),
            },
            Err(e) => Err(e),
        }
    }

    /// Removes the epic `epic_id` and every story in its list. Without such an
    /// epic it fails with `NotFound` and writes nothing.
    pub fn delete_epic(&mut self, epic_id: u32) -> (r: Result<(), DbError>)
        ensures
            final(self).reliable() == old(self).reliable(),
            match r {
                Ok(()) => {
                    &&& old(self).snapshot() matches Some(s)
                    &&& s.epics.contains_key(epic_id)
                    &&& final(self).snapshot() == Some(s.delete_epic(epic_id))
                },
                Err(DbError::NotFound) => {
                    &&& old(self).snapshot() matches Some(s)
                    &&& !s.epics.contains_key(epic_id)
                    &&& *final(self) == *old(self)
                },
                Err(e) => old(self).medium_failed(final(self), e, old(self).holds_epic(epic_id)),
            },
            old(self).reliable() ==> (r is Ok <==> old(self).holds_epic(epic_id)),
            r is Ok && old(self).wf() ==> final(self).wf(),
    {
        let mut parsed = match self.database.read_db() {
            Ok(state) => state,
            Err(e) => {
                return Err(e);
            },
        };
        match parsed.delete_epic(epic_id) {
            Ok(()) => self.database.write_db(&parsed),
            Err(e) => Err(e),
        }
    }

    /// Takes `story_id` out of the list of the epic `epic_id` and out of the
    /// stories. Where the epic does not exist or does not list the story, it
    /// fails with `NotFound` and writes nothing, even if the story exists.
    pub fn delete_story(&mut self, epic_id: u32, story_id: u32) -> (r: Result<(), DbError>)
        ensures
            final(self).reliable() == old(self).reliable(),
            match r {
                Ok(()) => {
                    &&& old(self).snapshot() matches Some(s)
                    &&& s.lists(epic_id, story_id)
                    &&& final(self).snapshot() == Some(s.delete_story(epic_id, story_id))
                },
                Err(DbError::NotFound) => {
                    &&& old(self).snapshot() matches Some(s)
                    &&& !s.lists(epic_id, story_id)
                    &&& *final(self) == *old(self)
                },
                Err(e) => old(self).medium_failed(
                    final(self),
                    e,
                    old(self).lists(epic_id, story_id),
                ),
            },
            old(self).reliable() ==> (r is Ok <==> old(self).lists(epic_id, story_id)),
            r is Ok && old(self).wf() ==> final(self).wf(),
    {
        let mut parsed = match self.database.read_db() {
            Ok(state) => state,
            Err(e) => {
                return Err(e);
            },
        };
        match parsed.delete_story(epic_id, story_id) {
            Ok(()) => self.database.write_db(&parsed),
            Err(e) => Err(e),
        }
    }

    /// Gives the epic `epic_id` the status `status`. Without such an epic it
    /// fails with `NotFound` and writes nothing.
    pub fn update_epic_status(&mut self, epic_id: u32, status: Status) -> (r: Result<(), DbError>)
        ensures
            final(self).reliable() == old(self).reliable(),
            match r {
                Ok(()) => {
                    &&& old(self).snapshot() matches Some(s)
                    &&& s.epics.contains_key(epic_id)
                    &&& final(self).snapshot() == Some(s.update_epic_status(epic_id, status))
                },
                Err(DbError::NotFound) => {
                    &&& old(self).snapshot() matches Some(s)
                    &&& !s.epics.contains_key(epic_id)
                    &&& *final(self) == *old(self)
                },
                Err(e) => old(self).medium_failed(final(self), e, old(self).holds_epic(epic_id)),
            },
            old(self).reliable() ==> (r is Ok <==> old(self).holds_epic(epic_id)),
            r is Ok && old(self).wf() ==> final(self).wf(),
    {
        let mut parsed = match self.database.read_db() {
            Ok(state) => state,
            Err(e) => {
                return Err(e);
            },
        };
        match parsed.update_epic_status(epic_id, status) {
            Ok(()) => self.database.write_db(&parsed),
            Err(e) => Err(e),
        }
    }

    /// Gives the story `story_id` the status `status`. Without such a story it
    /// fails with `NotFound` and writes nothing.
    pub fn update_story_status(&mut self, story_id: u32, status: Status) -> (r: Result<(), DbError>)
        ensures
            final(self).reliable() == old(self).reliable(),
            match r {
                Ok(()) => {
                    &&& old(self).snapshot() matches Some(s)
                    &&& s.stories.contains_key(story_id)
                    &&& final(self).snapshot() == Some(s.update_story_status(story_id, status))
                },
                Err(DbError::NotFound) => {
                    &&& old(self).snapshot() matches Some(s)
                    &&& !s.stories.contains_key(story_id)
                    &&& *final(self) == *old(self)
                },
                Err(e) => old(self).medium_failed(final(self), e, old(self).holds_story(story_id)),
            },
            old(self).reliable() ==> (r is Ok <==> old(self).holds_story(story_id)),
            r is Ok && old(self).wf() ==> final(self).wf(),
    {
        let mut parsed = match self.database.read_db() {
            Ok(state) => state,
            Err(e) => {
                return Err(e);
            },
        };
        match parsed.update_story_status(story_id, status) {
            Ok(()) => self.database.write_db(&parsed),
            Err(e) => Err(e),
        }
    }
}

} // verus!
