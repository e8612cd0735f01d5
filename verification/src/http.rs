//! The request and response payloads of the remote API, and the verified
//! construction of each request body the client sends.

use vstd::prelude::*;
use vstd::string::*;

use crate::strutil::{split_terminated, split_terminator_on};

verus! {

/// A listing response: the remote API answers with a bare array.
#[derive(Debug)]
pub struct Response<T> {
    pub array: Vec<T>,
}

/// The smallest creation payload: a title.
#[derive(Debug)]
pub struct CreateArtifact {
    pub title: String,
}

impl CreateArtifact {
    /// A creation payload for one title.
    pub fn new(title: String) -> (r: Self)
        ensures
            r.title == title,
    {
        CreateArtifact { title }
    }
}

/// The id-bearing acknowledgement most calls answer with.
#[derive(Debug)]
pub struct ResponseOk {
    pub _id: String,
}

impl ResponseOk {
    /// The acknowledged id.
    pub fn get_id(&self) -> (r: String)
        ensures
            r == self._id,
    {
        self._id.clone()
    }
}

/// The payload that creates a board.
#[derive(Debug)]
pub struct CreateBoard {
    pub title: String,
    pub owner: String,
    pub permission: Option<String>,
    pub color: Option<String>,
    pub is_admin: Option<bool>,
    pub is_active: Option<bool>,
    pub is_no_comments: Option<bool>,
    pub is_comment_only: Option<bool>,
    pub is_worker: Option<bool>,
}

/// Builds the board creation payload the client sends: private by default,
/// everything else left to the server.
pub fn build_create_board(title: String, owner: String) -> (r: CreateBoard)
    ensures
        r.title == title,
        r.owner == owner,
        (r.permission matches Some(p) && p@ == "private"@),
        r.color is None,
        r.is_admin is None,
        r.is_active is None,
        r.is_no_comments is None,
        r.is_comment_only is None,
        r.is_worker is None,
{
    CreateBoard {
        title,
        owner,
        permission: Some(String::from_str("private")),
        color: None,
        is_admin: None,
        is_active: None,
        is_no_comments: None,
        is_comment_only: None,
        is_worker: None,
    }
}

/// The acknowledgement of a created board.
#[derive(Debug)]
pub struct CreatedBoard {
    pub _id: String,
    pub default_swimlane_id: String,
}

/// The payload that creates a card.
#[derive(Debug)]
pub struct CreateCard {
    pub _id: String,
    pub author_id: String,
    pub members: Option<String>,
    pub assignees: Option<String>,
    pub title: String,
    pub description: String,
    pub swimlane_id: String,
}

impl CreateCard {
    /// The payload's id.
    pub fn get_id(&self) -> (r: String)
        ensures
            r == self._id,
    {
        self._id.clone()
    }
}

/// Builds the card creation payload: author, title, description and the
/// swimlane the card lands in.
pub fn build_create_card(
    author_id: String,
    title: String,
    description: String,
    swimlane_id: String,
) -> (r: CreateCard)
    ensures
        r._id@ == Seq::<char>::empty(),
        r.author_id == author_id,
        r.members is None,
        r.assignees is None,
        r.title == title,
        r.description == description,
        r.swimlane_id == swimlane_id,
{
    CreateCard {
        _id: String::new(),
        author_id,
        members: None,
        assignees: None,
        title,
        description,
        swimlane_id,
    }
}

/// A bare card detail answer.
#[derive(Debug)]
pub struct Card {
    pub description: String,
}

impl Card {
    /// The card's description.
    pub fn get_description(&self) -> (r: String)
        ensures
            r == self.description,
    {
        self.description.clone()
    }
}

/// The payload that moves a card to another list.
#[derive(Debug)]
pub struct MoveCard {
    pub _id: String,
    pub list_id: String,
}

impl MoveCard {
    /// The moved card's id.
    pub fn get_id(&self) -> (r: String)
        ensures
            r == self._id,
    {
        self._id.clone()
    }
}

/// The payload that updates a card's fields; absent fields stay untouched.
#[derive(Debug)]
pub struct UpdateCard {
    pub _id: String,
    pub title: Option<String>,
    pub description: Option<String>,
    pub due_at: Option<String>,
    pub end_at: Option<String>,
    pub labels: Option<Vec<String>>,
}

impl UpdateCard {
    /// The updated card's id.
    pub fn get_id(&self) -> (r: String)
        ensures
            r == self._id,
    {
        self._id.clone()
    }
}

/// Builds a card update: the labels argument, when given, is split at its
/// commas into the label list.
pub fn build_update_card(
    id: String,
    title: Option<String>,
    description: Option<String>,
    due_at: Option<String>,
    end_at: Option<String>,
    labels: Option<String>,
) -> (r: UpdateCard)
    ensures
        r._id == id,
        r.title == title,
        r.description == description,
        r.due_at == due_at,
        r.end_at == end_at,
        match labels {
            Some(l) => (r.labels matches Some(v) && v.deep_view() == split_terminated(l@, ',')),
            None => r.labels is None,
        },
{
    UpdateCard {
        _id: id,
        title,
        description,
        due_at,
        end_at,
        labels: match labels {
            Some(l) => Some(split_terminator_on(l.as_str(), ',')),
            None => None,
        },
    }
}

/// The payload that archives a card, or restores it.
#[derive(Debug)]
pub struct ArchiveCard {
    pub _id: String,
    pub archive: bool,
    pub archive_at: String,
}

impl ArchiveCard {
    /// The archived card's id.
    pub fn get_id(&self) -> (r: String)
        ensures
            r == self._id,
    {
        self._id.clone()
    }
}

/// Builds an archive payload: archiving stamps the given moment, restoring
/// clears both the flag and the stamp.
pub fn build_archive_card(id: String, restore: bool, stamp: String) -> (r: ArchiveCard)
    ensures
        r._id == id,
        restore ==> !r.archive && r.archive_at@ == Seq::<char>::empty(),
        !restore ==> r.archive && r.archive_at == stamp,
{
    if restore {
        ArchiveCard { _id: id, archive: false, archive_at: String::new() }
    } else {
        ArchiveCard { _id: id, archive: true, archive_at: stamp }
    }
}

} // verus!
