//! What holds of the six changes, whatever snapshot they start from: each
//! keeps the invariant of the store, none hands out an id twice, and each
//! touches only what it names.

use crate::models::{EpicView, Status, StoryView};
use crate::state::StateView;
use vstd::prelude::*;

verus! {

/// The empty snapshot meets the invariant.
pub proof fn empty_is_wf()
    ensures
        StateView::empty().wf(),
{
}

/// In a store that meets the invariant the next id is in use nowhere: it
/// names no epic and no story, and no epic lists it.
pub proof fn next_id_is_fresh(s: StateView)
    requires
        s.wf(),
        s.has_room(),
    ensures
        !s.epics.contains_key(s.next_id()),
        !s.stories.contains_key(s.next_id()),
        forall|e: u32| !s.lists(e, s.next_id()),
{
    assert forall|e: u32| !s.lists(e, s.next_id()) by {
        if s.lists(e, s.next_id()) {
            assert(s.stories.contains_key(s.next_id()));
        }
    }
}

/// After an epic was created it is found under the id that was handed out,
/// the counter is that id, and nothing else has changed.
pub proof fn create_epic_reads_back(s: StateView, epic: EpicView)
    requires
        s.has_room(),
    ensures
        s.create_epic(epic).epics.contains_key(s.next_id()),
        s.create_epic(epic).epics[s.next_id()] == epic,
        s.create_epic(epic).last_item_id == s.next_id(),
        s.create_epic(epic).stories == s.stories,
        forall|e: u32|
            e != s.next_id() ==> (s.create_epic(epic).epics.contains_key(e)
                <==> s.epics.contains_key(e)),
        forall|e: u32|
            e != s.next_id() && s.epics.contains_key(e) ==> s.create_epic(epic).epics[e]
                == s.epics[e],
{
}

/// Creating an epic that lists no story keeps the invariant.
pub proof fn create_epic_keeps_wf(s: StateView, epic: EpicView)
    requires
        s.wf(),
        s.has_room(),
        epic.stories.len() == 0,
    ensures
        s.create_epic(epic).wf(),
{
    let t = s.create_epic(epic);
    next_id_is_fresh(s);
    assert forall|e: u32, x: u32| #[trigger] t.lists(e, x) implies s.lists(e, x) by {}
}

/// After a story was created under an existing epic, its id is the last in
/// that epic's list, the story is found under that id, the counter is that
/// id, and nothing else has changed.
pub proof fn create_story_reads_back(s: StateView, story: StoryView, epic_id: u32)
    requires
        s.has_room(),
        s.epics.contains_key(epic_id),
    ensures
        s.create_story(story, epic_id).last_item_id == s.next_id(),
        s.create_story(story, epic_id).stories.contains_key(s.next_id()),
        s.create_story(story, epic_id).stories[s.next_id()] == story,
        s.create_story(story, epic_id).epics[epic_id].stories == s.epics[epic_id].stories.push(
            s.next_id(),
        ),
        s.create_story(story, epic_id).epics[epic_id].stories.last() == s.next_id(),
        s.create_story(story, epic_id).lists(epic_id, s.next_id()),
        s.create_story(story, epic_id).epics[epic_id] == (EpicView {
            stories: s.epics[epic_id].stories.push(s.next_id()),
            ..s.epics[epic_id]
        }),
        s.create_story(story, epic_id).epics.dom() == s.epics.dom(),
        forall|e: u32|
            e != epic_id && s.epics.contains_key(e) ==> s.create_story(story, epic_id).epics[e]
                == s.epics[e],
        forall|x: u32|
            x != s.next_id() ==> (s.create_story(story, epic_id).stories.contains_key(x)
                <==> s.stories.contains_key(x)),
        forall|x: u32|
            x != s.next_id() && s.stories.contains_key(x) ==> s.create_story(
                story,
                epic_id,
            ).stories[x] == s.stories[x],
{
}

/// Creating a story keeps the invariant.
pub proof fn create_story_keeps_wf(s: StateView, story: StoryView, epic_id: u32)
    requires
        s.wf(),
        s.has_room(),
        s.epics.contains_key(epic_id),
    ensures
        s.create_story(story, epic_id).wf(),
{
    let t = s.create_story(story, epic_id);
    let id = s.next_id();
    let old_list = s.epics[epic_id].stories;
    next_id_is_fresh(s);
    create_story_reads_back(s, story, epic_id);
    assert forall|e: u32, x: u32| #[trigger] t.lists(e, x) implies s.lists(e, x) || (e == epic_id
        && x == id) by {
        if e == epic_id {
            let j = choose|j: int| 0 <= j < old_list.push(id).len() && old_list.push(id)[j] == x;
            if j < old_list.len() {
                assert(old_list[j] == x);
            }
        }
    }
    assert(t.epics[epic_id].stories.no_duplicates()) by {
        assert(!s.lists(epic_id, id));
    }
}

/// After an epic was deleted it is gone, every story that it listed is gone,
/// and every other epic and every story that it did not list are as before.
pub proof fn delete_epic_removes(s: StateView, epic_id: u32)
    requires
        s.epics.contains_key(epic_id),
    ensures
        !s.delete_epic(epic_id).epics.contains_key(epic_id),
        forall|x: u32| s.lists(epic_id, x) ==> !s.delete_epic(epic_id).stories.contains_key(x),
        s.delete_epic(epic_id).last_item_id == s.last_item_id,
        forall|e: u32|
            e != epic_id && s.epics.contains_key(e) ==> s.delete_epic(epic_id).epics.contains_key(e)
                && s.delete_epic(epic_id).epics[e] == s.epics[e],
        forall|e: u32| s.delete_epic(epic_id).epics.contains_key(e) ==> s.epics.contains_key(e),
        forall|x: u32|
            !s.lists(epic_id, x) && s.stories.contains_key(x) ==> s.delete_epic(
                epic_id,
            ).stories.contains_key(x) && s.delete_epic(epic_id).stories[x] == s.stories[x],
        forall|x: u32| s.delete_epic(epic_id).stories.contains_key(x) ==> s.stories.contains_key(x),
{
}

/// Deleting an epic keeps the invariant; in particular no epic that is left
/// lists a story that went with the deleted one.
pub proof fn delete_epic_keeps_wf(s: StateView, epic_id: u32)
    requires
        s.wf(),
        s.epics.contains_key(epic_id),
    ensures
        s.delete_epic(epic_id).wf(),
{
    let t = s.delete_epic(epic_id);
    delete_epic_removes(s, epic_id);
    assert forall|e: u32, x: u32| #[trigger] t.lists(e, x) implies s.lists(e, x) && e != epic_id
        && !s.lists(epic_id, x) by {
        assert(s.lists(e, x));
    }
}

/// Taking the first occurrence of a value out of a list without repetitions
/// leaves a list without repetitions that no longer holds the value and
/// still holds every other value that it held.
pub proof fn remove_value_of_distinct(list: Seq<u32>, value: u32)
    requires
        list.no_duplicates(),
        list.contains(value),
    ensures
        !list.remove_value(value).contains(value),
        list.remove_value(value).no_duplicates(),
        list.remove_value(value).len() + 1 == list.len(),
        forall|x: u32| x != value ==> (list.remove_value(value).contains(x) <==> list.contains(x)),
{
    list.index_of_first_ensures(value);
    let i = list.index_of_first(value).unwrap();
    let rest = list.remove(i);
    assert forall|x: u32| x != value && list.contains(x) implies rest.contains(x) by {
        let k = choose|k: int| 0 <= k < list.len() && list[k] == x;
        assert(rest[if k < i { k } else { k - 1 }] == x);
    }
}

/// After a story was deleted from an epic that listed it once, the epic no
/// longer lists it and the story is gone, so that the same deletion cannot be
/// made again; everything else is as before.
pub proof fn delete_story_removes(s: StateView, epic_id: u32, story_id: u32)
    requires
        s.lists(epic_id, story_id),
        s.epics[epic_id].stories.no_duplicates(),
    ensures
        !s.delete_story(epic_id, story_id).epics[epic_id].stories.contains(story_id),
        !s.delete_story(epic_id, story_id).stories.contains_key(story_id),
        !s.delete_story(epic_id, story_id).lists(epic_id, story_id),
        s.delete_story(epic_id, story_id).last_item_id == s.last_item_id,
        s.delete_story(epic_id, story_id).epics.dom() == s.epics.dom(),
        s.delete_story(epic_id, story_id).epics[epic_id] == (EpicView {
            stories: s.epics[epic_id].stories.remove_value(story_id),
            ..s.epics[epic_id]
        }),
        forall|x: u32|
            x != story_id ==> (s.delete_story(epic_id, story_id).lists(epic_id, x) <==> s.lists(
                epic_id,
                x,
            )),
        forall|e: u32|
            e != epic_id && s.epics.contains_key(e) ==> s.delete_story(epic_id, story_id).epics[e]
                == s.epics[e],
        forall|x: u32|
            x != story_id && s.stories.contains_key(x) ==> s.delete_story(
                epic_id,
                story_id,
            ).stories.contains_key(x) && s.delete_story(epic_id, story_id).stories[x]
                == s.stories[x],
        forall|x: u32|
            s.delete_story(epic_id, story_id).stories.contains_key(x) ==> s.stories.contains_key(x),
{
    remove_value_of_distinct(s.epics[epic_id].stories, story_id);
}

/// Deleting a story keeps the invariant.
pub proof fn delete_story_keeps_wf(s: StateView, epic_id: u32, story_id: u32)
    requires
        s.wf(),
        s.lists(epic_id, story_id),
    ensures
        s.delete_story(epic_id, story_id).wf(),
{
    let t = s.delete_story(epic_id, story_id);
    delete_story_removes(s, epic_id, story_id);
    remove_value_of_distinct(s.epics[epic_id].stories, story_id);
    assert forall|e: u32, x: u32| #[trigger] t.lists(e, x) implies s.lists(e, x) && x
        != story_id by {
        if e != epic_id && x == story_id {
            assert(s.lists(e, story_id) && s.lists(epic_id, story_id));
        }
    }
}

/// Giving an epic a status changes that status and nothing else: not its
/// name, description or list, no other epic, no story, not the counter.
pub proof fn update_epic_status_changes_only_status(s: StateView, epic_id: u32, status: Status)
    requires
        s.epics.contains_key(epic_id),
    ensures
        s.update_epic_status(epic_id, status).epics[epic_id] == (EpicView {
            status,
            ..s.epics[epic_id]
        }),
        s.update_epic_status(epic_id, status).epics.dom() == s.epics.dom(),
        forall|e: u32|
            e != epic_id && s.epics.contains_key(e) ==> s.update_epic_status(
                epic_id,
                status,
            ).epics[e] == s.epics[e],
        forall|e: u32, x: u32| s.update_epic_status(epic_id, status).lists(e, x) <==> s.lists(e, x),
        s.update_epic_status(epic_id, status).stories == s.stories,
        s.update_epic_status(epic_id, status).last_item_id == s.last_item_id,
        s.wf() ==> s.update_epic_status(epic_id, status).wf(),
{
    let t = s.update_epic_status(epic_id, status);
    assert(t.epics.dom() =~= s.epics.dom());
    assert forall|e: u32, x: u32| t.lists(e, x) <==> s.lists(e, x) by {}
}

/// Giving a story a status changes that status and nothing else: not its
/// name or description, no other story, no epic, not the counter.
pub proof fn update_story_status_changes_only_status(s: StateView, story_id: u32, status: Status)
    requires
        s.stories.contains_key(story_id),
    ensures
        s.update_story_status(story_id, status).stories[story_id] == (StoryView {
            status,
            ..s.stories[story_id]
        }),
        s.update_story_status(story_id, status).stories.dom() == s.stories.dom(),
        forall|x: u32|
            x != story_id && s.stories.contains_key(x) ==> s.update_story_status(
                story_id,
                status,
            ).stories[x] == s.stories[x],
        s.update_story_status(story_id, status).epics == s.epics,
        s.update_story_status(story_id, status).last_item_id == s.last_item_id,
        s.wf() ==> s.update_story_status(story_id, status).wf(),
{
    let t = s.update_story_status(story_id, status);
    assert(t.stories.dom() =~= s.stories.dom());
    assert forall|e: u32, x: u32| t.lists(e, x) <==> s.lists(e, x) by {}
}

/// No change lowers the counter, and each creation raises it by one. With
/// `next_id_is_fresh` this is why an id, once handed out, is never handed out
/// again, whether or not what it named still exists.
pub proof fn counter_only_grows(
    s: StateView,
    epic: EpicView,
    story: StoryView,
    epic_id: u32,
    story_id: u32,
    status: Status,
)
    ensures
        s.has_room() ==> s.create_epic(epic).last_item_id == s.last_item_id + 1,
        s.has_room() ==> s.create_story(story, epic_id).last_item_id == s.last_item_id + 1,
        s.delete_epic(epic_id).last_item_id == s.last_item_id,
        s.delete_story(epic_id, story_id).last_item_id == s.last_item_id,
        s.update_epic_status(epic_id, status).last_item_id == s.last_item_id,
        s.update_story_status(story_id, status).last_item_id == s.last_item_id,
{
}

} // verus!
