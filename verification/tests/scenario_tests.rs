use database::db::JiraDatabase;
use database::error::DbError;
use database::memory::MockDB;
use database::models::{Epic, Status, Story};

fn store() -> JiraDatabase<MockDB> {
    JiraDatabase::new(MockDB::new())
}

#[test]
fn epic_then_story_then_read_back() {
    let mut db = store();
    let epic = Epic::new("E".to_owned(), "E".to_owned());
    assert_eq!(db.create_epic(epic.clone()), Ok(1));
    let state = db.read_db().unwrap();
    assert_eq!(state.epics.get(&1), Some(&epic));
    assert_eq!(state.last_item_id, 1);

    let story = Story::new("S".to_owned(), "S".to_owned());
    assert_eq!(db.create_story(story.clone(), 1), Ok(2));
    let state = db.read_db().unwrap();
    assert_eq!(state.epics.get(&1).unwrap().stories, vec![2]);
    assert_eq!(state.stories.get(&2).unwrap().status, Status::Open);
    assert_eq!(state.stories.get(&2), Some(&story));
    assert_eq!(state.last_item_id, 2);
}

#[test]
fn delete_epic_after_epic_and_story() {
    let mut db = store();
    assert_eq!(db.create_epic(Epic::new("E".to_owned(), "E".to_owned())), Ok(1));
    assert_eq!(db.create_story(Story::new("S".to_owned(), "S".to_owned()), 1), Ok(2));
    assert_eq!(db.delete_epic(1), Ok(()));
    let state = db.read_db().unwrap();
    assert_eq!(state.epics.get(&1), None);
    assert_eq!(state.stories.get(&2), None);
    assert_eq!(state.last_item_id, 2);
}

#[test]
fn create_story_on_an_empty_store() {
    let mut db = store();
    let story = Story::new("S".to_owned(), "S".to_owned());
    assert_eq!(db.create_story(story, 999), Err(DbError::NotFound));
    let state = db.read_db().unwrap();
    assert_eq!(state.last_item_id, 0);
    assert!(state.epics.is_empty());
    assert!(state.stories.is_empty());
}

#[test]
fn delete_story_cannot_be_repeated() {
    let mut db = store();
    assert_eq!(db.create_epic(Epic::new("E".to_owned(), "E".to_owned())), Ok(1));
    assert_eq!(db.create_story(Story::new("S".to_owned(), "S".to_owned()), 1), Ok(2));
    assert_eq!(db.create_story(Story::new("T".to_owned(), "T".to_owned()), 1), Ok(3));
    assert_eq!(db.delete_story(1, 2), Ok(()));
    let state = db.read_db().unwrap();
    assert_eq!(state.epics.get(&1).unwrap().stories, vec![3]);
    assert_eq!(state.stories.get(&2), None);
    assert_eq!(db.delete_story(1, 2), Err(DbError::NotFound));
    assert_eq!(db.read_db().unwrap(), state);
}

#[test]
fn story_of_another_epic_is_not_deleted() {
    let mut db = store();
    assert_eq!(db.create_epic(Epic::new("E".to_owned(), "E".to_owned())), Ok(1));
    assert_eq!(db.create_epic(Epic::new("F".to_owned(), "F".to_owned())), Ok(2));
    assert_eq!(db.create_story(Story::new("S".to_owned(), "S".to_owned()), 1), Ok(3));
    assert_eq!(db.delete_story(2, 3), Err(DbError::NotFound));
    let state = db.read_db().unwrap();
    assert_eq!(state.epics.get(&1).unwrap().stories, vec![3]);
    assert!(state.stories.contains_key(&3));
}

#[test]
fn status_updates_leave_the_rest_alone() {
    let mut db = store();
    assert_eq!(db.create_epic(Epic::new("E".to_owned(), "about E".to_owned())), Ok(1));
    assert_eq!(db.create_story(Story::new("S".to_owned(), "about S".to_owned()), 1), Ok(2));
    let before = db.read_db().unwrap();
    assert_eq!(db.update_epic_status(1, Status::InProgress), Ok(()));
    assert_eq!(db.update_story_status(2, Status::Resolved), Ok(()));
    let after = db.read_db().unwrap();
    assert_eq!(after.last_item_id, before.last_item_id);
    let e = after.epics.get(&1).unwrap();
    assert_eq!(e.name, "E");
    assert_eq!(e.description, "about E");
    assert_eq!(e.stories, vec![2]);
    assert_eq!(e.status, Status::InProgress);
    let s = after.stories.get(&2).unwrap();
    assert_eq!(s.name, "S");
    assert_eq!(s.description, "about S");
    assert_eq!(s.status, Status::Resolved);
}

#[test]
fn ids_grow_across_both_kinds_and_are_not_reused() {
    let mut db = store();
    assert_eq!(db.create_epic(Epic::new("E".to_owned(), "E".to_owned())), Ok(1));
    assert_eq!(db.create_story(Story::new("S".to_owned(), "S".to_owned()), 1), Ok(2));
    assert_eq!(db.create_epic(Epic::new("F".to_owned(), "F".to_owned())), Ok(3));
    assert_eq!(db.delete_epic(3), Ok(()));
    assert_eq!(db.delete_epic(1), Ok(()));
    assert_eq!(db.create_epic(Epic::new("G".to_owned(), "G".to_owned())), Ok(4));
    assert_eq!(db.read_db().unwrap().last_item_id, 4);
}
