//! Runs of changes: what holds of a store after any number of successful
//! operations, one after the other.

use crate::laws::{
    create_epic_keeps_wf, create_story_keeps_wf, delete_epic_keeps_wf, delete_story_keeps_wf,
    update_epic_status_changes_only_status, update_story_status_changes_only_status,
};
use crate::models::{EpicView, Status, StoryView};
use crate::state::StateView;
use vstd::prelude::*;

verus! {

/// One of the six operations with its arguments.
pub enum Change {
    CreateEpic(EpicView),
    CreateStory(StoryView, u32),
    DeleteEpic(u32),
    DeleteStory(u32, u32),
    UpdateEpicStatus(u32, Status),
    UpdateStoryStatus(u32, Status),
}

impl Change {
    /// Whether the change hands out an id.
    pub open spec fn creates(self) -> bool {
        self is CreateEpic || self is CreateStory
    }
}

impl StateView {
    /// Whether the operation succeeds on this snapshot. A new epic comes
    /// without stories.
    pub open spec fn allows(self, change: Change) -> bool {
        match change {
            Change::CreateEpic(epic) => self.has_room() && epic.stories.len() == 0,
            Change::CreateStory(_, epic_id) => self.has_room() && self.epics.contains_key(epic_id),
            Change::DeleteEpic(epic_id) => self.epics.contains_key(epic_id),
            Change::DeleteStory(epic_id, story_id) => self.lists(epic_id, story_id),
            Change::UpdateEpicStatus(epic_id, _) => self.epics.contains_key(epic_id),
            Change::UpdateStoryStatus(story_id, _) => self.stories.contains_key(story_id),
        }
    }

    /// The snapshot after the operation.
    pub open spec fn apply(self, change: Change) -> StateView
        recommends
            self.allows(change),
    {
        match change {
            Change::CreateEpic(epic) => self.create_epic(epic),
            Change::CreateStory(story, epic_id) => self.create_story(story, epic_id),
            Change::DeleteEpic(epic_id) => self.delete_epic(epic_id),
            Change::DeleteStory(epic_id, story_id) => self.delete_story(epic_id, story_id),
            Change::UpdateEpicStatus(epic_id, status) => self.update_epic_status(epic_id, status),
            Change::UpdateStoryStatus(story_id, status) => self.update_story_status(
                story_id,
                status,
            ),
        }
    }

    /// The snapshot after the first `n` of `changes`.
    pub open spec fn after(self, changes: Seq<Change>, n: nat) -> StateView
        recommends
            n <= changes.len(),
        decreases n,
    {
        if n == 0 {
            self
        } else {
            self.after(changes, (n - 1) as nat).apply(changes[n - 1])
        }
    }

    /// Whether each of `changes` succeeds on the snapshot that the ones
    /// before it leave.
    pub open spec fn allows_all(self, changes: Seq<Change>) -> bool {
        forall|k: nat|
            k < changes.len() ==> #[trigger] self.after(changes, k).allows(changes[k as int])
    }
}

/// A successful operation keeps the invariant of the store and does not lower
/// the counter; one that creates a record hands out the counter's successor.
pub proof fn step_keeps_wf(s: StateView, change: Change)
    requires
        s.wf(),
        s.allows(change),
    ensures
        s.apply(change).wf(),
        s.apply(change).last_item_id >= s.last_item_id,
        change.creates() ==> s.apply(change).last_item_id == s.last_item_id + 1,
{
    match change {
        Change::CreateEpic(epic) => create_epic_keeps_wf(s, epic),
        Change::CreateStory(story, epic_id) => create_story_keeps_wf(s, story, epic_id),
        Change::DeleteEpic(epic_id) => delete_epic_keeps_wf(s, epic_id),
        Change::DeleteStory(epic_id, story_id) => delete_story_keeps_wf(s, epic_id, story_id),
        Change::UpdateEpicStatus(epic_id, status) => update_epic_status_changes_only_status(
            s,
            epic_id,
            status,
        ),
        Change::UpdateStoryStatus(story_id, status) => update_story_status_changes_only_status(
            s,
            story_id,
            status,
        ),
    }
}

/// After any run of successful operations on a store that meets the
/// invariant, the store meets it still, and the counter is where it was or
/// higher.
pub proof fn run_keeps_wf(s: StateView, changes: Seq<Change>, n: nat)
    requires
        s.wf(),
        s.allows_all(changes),
        n <= changes.len(),
    ensures
        s.after(changes, n).wf(),
        s.after(changes, n).last_item_id >= s.last_item_id,
        forall|k: nat| k <= n ==> (#[trigger] s.after(changes, k)).last_item_id <= s.after(
            changes,
            n,
        ).last_item_id,
    decreases n,
{
    if n > 0 {
        let m = (n - 1) as nat;
        run_keeps_wf(s, changes, m);
        step_keeps_wf(s.after(changes, m), changes[m as int]);
    }
}

/// Ids are never reused: in a run of successful operations on a store that
/// meets the invariant, the id that a creation hands out is above the counter
/// of every earlier moment. So it differs from every id that was in use or
/// handed out before, whether or not what that id named still exists.
pub proof fn ids_are_never_reused(s: StateView, changes: Seq<Change>, earlier: nat, later: nat)
    requires
        s.wf(),
        s.allows_all(changes),
        earlier <= later < changes.len(),
        changes[later as int].creates(),
    ensures
        s.after(changes, later + 1).last_item_id == s.after(changes, later).next_id(),
        s.after(changes, later).next_id() > s.after(changes, earlier).last_item_id,
        !s.after(changes, earlier).epics.contains_key(s.after(changes, later).next_id()),
        !s.after(changes, earlier).stories.contains_key(s.after(changes, later).next_id()),
        earlier < later && changes[earlier as int].creates() ==> s.after(
            changes,
            earlier,
        ).next_id() < s.after(changes, later).next_id(),
{
    run_keeps_wf(s, changes, later);
    run_keeps_wf(s, changes, earlier);
    let before = s.after(changes, earlier);
    let now = s.after(changes, later);
    step_keeps_wf(now, changes[later as int]);
    if earlier < later && changes[earlier as int].creates() {
        step_keeps_wf(before, changes[earlier as int]);
        assert(s.after(changes, earlier + 1) == before.apply(changes[earlier as int]));
    }
}

} // verus!
