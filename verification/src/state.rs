//! The persisted aggregate and the six changes that may be made to it.
//!
//! `StateView` is the mathematical snapshot; its spec functions say what each
//! change yields. `DBState` is the executable snapshot; its methods carry out
//! the same changes in place and are proved against the spec functions.

use crate::error::DbError;
use crate::laws::{
    create_epic_keeps_wf, create_story_keeps_wf, delete_epic_keeps_wf, delete_story_keeps_wf,
    empty_is_wf, update_epic_status_changes_only_status, update_story_status_changes_only_status,
};
use crate::models::{Epic, EpicView, Status, Story, StoryView};
use std::collections::HashMap;
use vstd::prelude::*;

verus! {

broadcast use vstd::std_specs::hash::group_hash_axioms;

/// The full snapshot: the id counter and both kinds of record, keyed by id.
#[derive(Debug, PartialEq, Eq)]
pub struct DBState {
    pub last_item_id: u32,
    pub epics: HashMap<u32, Epic>,
    pub stories: HashMap<u32, Story>,
}

/// What a `DBState` stands for in contracts.
pub struct StateView {
    pub last_item_id: u32,
    pub epics: Map<u32, EpicView>,
    pub stories: Map<u32, StoryView>,
}

impl View for DBState {
    type V = StateView;

    open spec fn view(&self) -> StateView {
        StateView {
            last_item_id: self.last_item_id,
            epics: self.epics@.map_values(|e: Epic| e@),
            stories: self.stories@.map_values(|s: Story| s@),
        }
    }
}

impl Clone for DBState {
    /// A deep copy: a snapshot of its own with the same contents.
    fn clone(&self) -> (copy: DBState)
        ensures
            copy@ == self@,
    {
        DBState {
            last_item_id: self.last_item_id,
            epics: self.epics.clone(),
            stories: self.stories.clone(),
        }
    }
}

impl StateView {
    /// The snapshot of a store that nothing was ever written to.
    pub open spec fn empty() -> StateView {
        StateView { last_item_id: 0, epics: Map::empty(), stories: Map::empty() }
    }

    /// Whether another id can still be handed out.
    pub open spec fn has_room(self) -> bool {
        self.last_item_id < u32::MAX
    }

    /// The id that the next created record gets.
    pub open spec fn next_id(self) -> u32
        recommends
            self.has_room(),
    {
        (self.last_item_id + 1) as u32
    }

    /// Whether `story_id` stands in the list of the epic `epic_id`.
    pub open spec fn lists(self, epic_id: u32, story_id: u32) -> bool {
        self.epics.contains_key(epic_id) && self.epics[epic_id].stories.contains(story_id)
    }

    /// Every listed story exists.
    pub open spec fn no_dangling(self) -> bool {
        forall|e: u32, s: u32| #[trigger] self.lists(e, s) ==> self.stories.contains_key(s)
    }

    /// No story is listed twice, neither by two epics nor twice by one.
    pub open spec fn single_owner(self) -> bool {
        &&& forall|e1: u32, e2: u32, s: u32|
            #[trigger] self.lists(e1, s) && #[trigger] self.lists(e2, s) ==> e1 == e2
        &&& forall|e: u32| #[trigger]
            self.epics.contains_key(e) ==> self.epics[e].stories.no_duplicates()
    }

    /// The counter is at least every id in use.
    pub open spec fn ids_bounded(self) -> bool {
        &&& forall|e: u32| #[trigger] self.epics.contains_key(e) ==> e <= self.last_item_id
        &&& forall|s: u32| #[trigger] self.stories.contains_key(s) ==> s <= self.last_item_id
    }

    /// The invariant of the store: the three conditions above together.
    pub open spec fn wf(self) -> bool {
        &&& self.no_dangling()
        &&& self.single_owner()
        &&& self.ids_bounded()
    }

    /// The snapshot after `epic` was stored under the next id.
    pub open spec fn create_epic(self, epic: EpicView) -> StateView
        recommends
            self.has_room(),
    {
        StateView {
            last_item_id: self.next_id(),
            epics: self.epics.insert(self.next_id(), epic),
            stories: self.stories,
        }
    }

    /// The snapshot after `story` was stored under the next id and that id was
    /// added at the end of the list of the epic `epic_id`.
    pub open spec fn create_story(self, story: StoryView, epic_id: u32) -> StateView
        recommends
            self.has_room(),
            self.epics.contains_key(epic_id),
    {
        StateView {
            last_item_id: self.next_id(),
            epics: self.epics.insert(epic_id, self.epics[epic_id].with_story(self.next_id())),
            stories: self.stories.insert(self.next_id(), story),
        }
    }

    /// The snapshot after the epic `epic_id` and every story in its list were
    /// removed.
    pub open spec fn delete_epic(self, epic_id: u32) -> StateView
        recommends
            self.epics.contains_key(epic_id),
    {
        StateView {
            last_item_id: self.last_item_id,
            epics: self.epics.remove(epic_id),
            stories: self.stories.remove_keys(self.epics[epic_id].stories.to_set()),
        }
    }

    /// The snapshot after `story_id` was taken out of the list of the epic
    /// `epic_id` and out of the stories.
    pub open spec fn delete_story(self, epic_id: u32, story_id: u32) -> StateView
        recommends
            self.lists(epic_id, story_id),
    {
        StateView {
            last_item_id: self.last_item_id,
            epics: self.epics.insert(epic_id, self.epics[epic_id].without_story(story_id)),
            stories: self.stories.remove(story_id),
        }
    }

    /// The snapshot after the epic `epic_id` got the status `status`.
    pub open spec fn update_epic_status(self, epic_id: u32, status: Status) -> StateView
        recommends
            self.epics.contains_key(epic_id),
    {
        StateView {
            epics: self.epics.insert(epic_id, self.epics[epic_id].with_status(status)),
            ..self
        }
    }

    /// The snapshot after the story `story_id` got the status `status`.
    pub open spec fn update_story_status(self, story_id: u32, status: Status) -> StateView
        recommends
            self.stories.contains_key(story_id),
    {
        StateView {
            stories: self.stories.insert(story_id, self.stories[story_id].with_status(status)),
            ..self
        }
    }
}

impl DBState {
    /// The empty snapshot: counter at zero, no records.
    pub fn new() -> (state: DBState)
        ensures
            state@ == StateView::empty(),
            state@.wf(),
    {
        let state = DBState { last_item_id: 0, epics: HashMap::new(), stories: HashMap::new() };
        proof {
            assert(state@.epics =~= Map::empty());
            assert(state@.stories =~= Map::empty());
            empty_is_wf();
        }
        state
    }

    /// Whether another id can still be handed out.
    pub fn has_room(&self) -> (room: bool)
        ensures
            room == self@.has_room(),
    {
        self.last_item_id < u32::MAX
    }

    /// Stores `epic` under the next id and returns that id. The counter must
    /// not have reached the last `u32`. The invariant of the store is kept
    /// where `epic` comes without stories.
    pub fn create_epic(&mut self, epic: Epic) -> (id: u32)
        requires
            old(self)@.has_room(),
        ensures
            id == old(self)@.next_id(),
            final(self)@ == old(self)@.create_epic(epic@),
            old(self)@.wf() && epic@.stories.len() == 0 ==> final(self)@.wf(),
    {
        let new_id: u32 = self.last_item_id + 1;
        self.last_item_id = new_id;
        self.epics.insert(new_id, epic);
        proof {
            assert(self@.epics =~= old(self)@.epics.insert(new_id, epic@));
            if old(self)@.wf() && epic@.stories.len() == 0 {
                create_epic_keeps_wf(old(self)@, epic@);
            }
        }
        new_id
    }

    /// Stores `story` under the next id, adds that id at the end of the list of
    /// the epic `epic_id`, and returns the id. Without such an epic the
    /// snapshot stays as it is. The counter must not have reached the last
    /// `u32`.
    pub fn create_story(&mut self, story: Story, epic_id: u32) -> (r: Result<u32, DbError>)
        requires
            old(self)@.has_room(),
        ensures
            match r {
                Ok(id) => {
                    &&& old(self)@.epics.contains_key(epic_id)
                    &&& id == old(self)@.next_id()
                    &&& final(self)@ == old(self)@.create_story(story@, epic_id)
                },
                Err(e) => {
                    &&& e == DbError::NotFound
                    &&& !old(self)@.epics.contains_key(epic_id)
                    &&& final(self)@ == old(self)@
                },
            },
            old(self)@.wf() ==> final(self)@.wf(),
    {
        match self.epics.remove(&epic_id) {
            None => {
                assert(self@.epics =~= old(self)@.epics);
                Err(DbError::NotFound)
            },
            Some(mut epic) => {
                let new_id: u32 = self.last_item_id + 1;
                self.last_item_id = new_id;
                self.stories.insert(new_id, story);
                epic.stories.push(new_id);
                self.epics.insert(epic_id, epic);
                proof {
                    assert(self@.epics =~= old(self)@.create_story(story@, epic_id).epics);
                    assert(self@.stories =~= old(self)@.create_story(story@, epic_id).stories);
                    if old(self)@.wf() {
                        create_story_keeps_wf(old(self)@, story@, epic_id);
                    }
                }
                Ok(new_id)
            },
        }
    }

    /// Removes the epic `epic_id` and every story in its list. Without such an
    /// epic the snapshot stays as it is.
    pub fn delete_epic(&mut self, epic_id: u32) -> (r: Result<(), DbError>)
        ensures
            match r {
                Ok(()) => {
                    &&& old(self)@.epics.contains_key(epic_id)
                    &&& final(self)@ == old(self)@.delete_epic(epic_id)
                },
                Err(e) => {
                    &&& e == DbError::NotFound
                    &&& !old(self)@.epics.contains_key(epic_id)
                    &&& final(self)@ == old(self)@
                },
            },
            old(self)@.wf() ==> final(self)@.wf(),
    {
        match self.epics.remove(&epic_id) {
            None => {
                assert(self@.epics =~= old(self)@.epics);
                Err(DbError::NotFound)
            },
            Some(epic) => {
                let n: usize = epic.stories.len();
                let mut i: usize = 0;
                while i < n
                    invariant
                        i <= n,
                        n == epic.stories@.len(),
                        self.last_item_id == old(self).last_item_id,
                        self.epics@ == old(self).epics@.remove(epic_id),
                        self.stories@ == old(self).stories@.remove_keys(
                            epic.stories@.take(i as int).to_set(),
                        ),
                    decreases n - i,
                {
                    let story_id: u32 = epic.stories[i];
                    self.stories.remove(&story_id);
                    proof {
                        take_one_more(epic.stories@, i as int);
                        assert(self.stories@ =~= old(self).stories@.remove_keys(
                            epic.stories@.take(i + 1).to_set(),
                        ));
                    }
                    i = i + 1;
                }
                proof {
                    assert(epic.stories@.take(n as int) =~= epic.stories@);
                    assert(self@.epics =~= old(self)@.delete_epic(epic_id).epics);
                    assert(self@.stories =~= old(self)@.delete_epic(epic_id).stories);
                    if old(self)@.wf() {
                        delete_epic_keeps_wf(old(self)@, epic_id);
                    }
                }
                Ok(())
            },
        }
    }

    /// Takes `story_id` out of the list of the epic `epic_id` and out of the
    /// stories. Where the epic does not exist or does not list the story, the
    /// snapshot stays as it is, even if the story exists.
    pub fn delete_story(&mut self, epic_id: u32, story_id: u32) -> (r: Result<(), DbError>)
        ensures
            match r {
                Ok(()) => {
                    &&& old(self)@.lists(epic_id, story_id)
                    &&& final(self)@ == old(self)@.delete_story(epic_id, story_id)
                },
                Err(e) => {
                    &&& e == DbError::NotFound
                    &&& !old(self)@.lists(epic_id, story_id)
                    &&& final(self)@ == old(self)@
                },
            },
            old(self)@.wf() ==> final(self)@.wf(),
    {
        match self.epics.remove(&epic_id) {
            None => {
                assert(self@.epics =~= old(self)@.epics);
                Err(DbError::NotFound)
            },
            Some(mut epic) => match position(&epic.stories, story_id) {
                None => {
                    self.epics.insert(epic_id, epic);
                    assert(self@.epics =~= old(self)@.epics);
                    Err(DbError::NotFound)
                },
                Some(index) => {
                    proof {
                        epic.stories@.index_of_first_ensures(story_id);
                    }
                    epic.stories.remove(index);
                    self.epics.insert(epic_id, epic);
                    self.stories.remove(&story_id);
                    proof {
                        assert(self@.epics =~= old(self)@.delete_story(epic_id, story_id).epics);
                        assert(self@.stories =~= old(self)@.delete_story(
                            epic_id,
                            story_id,
                        ).stories);
                        if old(self)@.wf() {
                            delete_story_keeps_wf(old(self)@, epic_id, story_id);
                        }
                    }
                    Ok(())
                },
            },
        }
    }

    /// Gives the epic `epic_id` the status `status`. Without such an epic the
    /// snapshot stays as it is.
    pub fn update_epic_status(&mut self, epic_id: u32, status: Status) -> (r: Result<(), DbError>)
        ensures
            match r {
                Ok(()) => {
                    &&& old(self)@.epics.contains_key(epic_id)
                    &&& final(self)@ == old(self)@.update_epic_status(epic_id, status)
                },
                Err(e) => {
                    &&& e == DbError::NotFound
                    &&& !old(self)@.epics.contains_key(epic_id)
                    &&& final(self)@ == old(self)@
                },
            },
            old(self)@.wf() ==> final(self)@.wf(),
    {
        match self.epics.remove(&epic_id) {
            None => {
                assert(self@.epics =~= old(self)@.epics);
                Err(DbError::NotFound)
            },
            Some(mut epic) => {
                epic.status = status;
                self.epics.insert(epic_id, epic);
                proof {
                    assert(self@.epics =~= old(self)@.update_epic_status(epic_id, status).epics);
                    update_epic_status_changes_only_status(old(self)@, epic_id, status);
                }
                Ok(())
            },
        }
    }

    /// Gives the story `story_id` the status `status`. Without such a story
    /// the snapshot stays as it is.
    pub fn update_story_status(&mut self, story_id: u32, status: Status) -> (r: Result<
        (),
        DbError,
    >)
        ensures
            match r {
                Ok(()) => {
                    &&& old(self)@.stories.contains_key(story_id)
                    &&& final(self)@ == old(self)@.update_story_status(story_id, status)
                },
                Err(e) => {
                    &&& e == DbError::NotFound
                    &&& !old(self)@.stories.contains_key(story_id)
                    &&& final(self)@ == old(self)@
                },
            },
            old(self)@.wf() ==> final(self)@.wf(),
    {
        match self.stories.remove(&story_id) {
            None => {
                assert(self@.stories =~= old(self)@.stories);
                Err(DbError::NotFound)
            },
            Some(mut story) => {
                story.status = status;
                self.stories.insert(story_id, story);
                proof {
                    assert(self@.stories =~= old(self)@.update_story_status(
                        story_id,
                        status,
                    ).stories);
                    update_story_status_changes_only_status(old(self)@, story_id, status);
                }
                Ok(())
            },
        }
    }
}

/// The values among the first `i + 1` of a list are those among the first
/// `i`, and the one at `i`.
proof fn take_one_more(list: Seq<u32>, i: int)
    requires
        0 <= i < list.len(),
    ensures
        list.take(i + 1).to_set() == list.take(i).to_set().insert(list[i]),
{
    let before = list.take(i);
    let after = list.take(i + 1);
    assert(after =~= before.push(list[i]));
    assert forall|x: u32| after.to_set().contains(x) <==> before.to_set().insert(list[i]).contains(
        x,
    ) by {
        if x == list[i] {
            assert(after[i] == x);
        } else if before.contains(x) {
            let j = choose|j: int| 0 <= j < before.len() && before[j] == x;
            assert(after[j] == x);
        }
    }
}

/// The index of the first occurrence of `id` in `list`, if there is one.
pub fn position(list: &Vec<u32>, id: u32) -> (found: Option<usize>)
    ensures
        match found {
            Some(i) => {
                &&& i < list@.len()
                &&& list@[i as int] == id
                &&& forall|j: int| 0 <= j < i ==> list@[j] != id
                &&& list@.index_of_first(id) == Some(i as int)
            },
            None => !list@.contains(id),
        },
{
    let n: usize = list.len();
    let mut i: usize = 0;
    while i < n
        invariant
            i <= n,
            n == list@.len(),
            forall|j: int| 0 <= j < i ==> list@[j] != id,
        decreases n - i,
    {
        if list[i] == id {
            proof {
                list@.index_of_first_ensures(id);
            }
            return Some(i);
        }
        i = i + 1;
    }
    None
}

} // verus!
