//! The record model: epics, their stories, and the snapshot that holds both.
//!
//! Every executable type has a mathematical view (`EpicView`, `StoryView`,
//! `StateView`); the contracts of the whole crate are stated over those views.

use std::collections::HashMap;
use vstd::prelude::*;

verus! {

/// The label attached to an epic or a story. Any label may follow any other.
#[derive(Clone, Copy, Debug, PartialEq, Eq, Structural)]
pub enum Status {
    Open,
    InProgress,
    Resolved,
    Closed,
}

/// A parent record that groups stories by their ids.
#[derive(Clone, Debug, PartialEq, Eq)]
pub struct Epic {
    pub name: String,
    pub description: String,
    pub status: Status,
    pub stories: Vec<u32>,
}

/// A child record. It does not know which epic lists it.
#[derive(Clone, Debug, PartialEq, Eq)]
pub struct Story {
    pub name: String,
    pub description: String,
    pub status: Status,
}

/// What an `Epic` stands for in contracts.
pub struct EpicView {
    pub name: Seq<char>,
    pub description: Seq<char>,
    pub status: Status,
    pub stories: Seq<u32>,
}

/// What a `Story` stands for in contracts.
pub struct StoryView {
    pub name: Seq<char>,
    pub description: Seq<char>,
    pub status: Status,
}

impl View for Epic {
    type V = EpicView;

    open spec fn view(&self) -> EpicView {
        EpicView {
            name: self.name@,
            description: self.description@,
            status: self.status,
            stories: self.stories@,
        }
    }
}

impl View for Story {
    type V = StoryView;

    open spec fn view(&self) -> StoryView {
        StoryView { name: self.name@, description: self.description@, status: self.status }
    }
}

impl EpicView {
    /// The epic with its status replaced and everything else kept.
    pub open spec fn with_status(self, status: Status) -> EpicView {
        EpicView { status, ..self }
    }

    /// The epic with `story_id` added at the end of its list.
    pub open spec fn with_story(self, story_id: u32) -> EpicView {
        EpicView { stories: self.stories.push(story_id), ..self }
    }

    /// The epic with the first occurrence of `story_id` taken out of its list.
    pub open spec fn without_story(self, story_id: u32) -> EpicView {
        EpicView { stories: self.stories.remove_value(story_id), ..self }
    }
}

impl StoryView {
    /// The story with its status replaced and everything else kept.
    pub open spec fn with_status(self, status: Status) -> StoryView {
        StoryView { status, ..self }
    }
}

impl Epic {
    /// A fresh epic: open, with no stories.
    pub fn new(name: String, description: String) -> (epic: Epic)
        ensures
            epic@ == (EpicView {
                name: name@,
                description: description@,
                status: Status::Open,
                stories: Seq::empty(),
            }),
    {
        Epic { name, description, status: Status::Open, stories: Vec::new() }
    }
}

impl Story {
    /// A fresh story: open.
    pub fn new(name: String, description: String) -> (story: Story)
        ensures
            story@ == (StoryView {
                name: name@,
                description: description@,
                status: Status::Open,
            }),
    {
        Story { name, description, status: Status::Open }
    }
}

} // verus!
