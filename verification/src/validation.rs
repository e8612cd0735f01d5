//! Session data and per-command constraints: the login token, raw
//! credentials, and the bundles of resolved parent artifacts that each
//! command kind carries.

use vstd::prelude::*;

use crate::artifact::Artifact;

verus! {

/// The token a login yields: user id, bearer token and its expiry stamp.
#[derive(Debug)]
pub struct Token {
    pub id: String,
    pub token: String,
    pub token_expires: String,
}

impl Clone for Token {
    fn clone(&self) -> (r: Self)
        ensures
            r == *self,
    {
        Token {
            id: self.id.clone(),
            token: self.token.clone(),
            token_expires: self.token_expires.clone(),
        }
    }
}

/// Raw credentials as the user typed them.
pub struct Credentials {
    pub user: String,
    pub pw: String,
}

/// A user as a board constraint carries it.
#[derive(Debug)]
pub struct User {
    pub name: String,
    pub token: Option<String>,
}

impl Clone for User {
    fn clone(&self) -> (r: Self)
        ensures
            r == *self,
    {
        User {
            name: self.name.clone(),
            token: match &self.token {
                Some(t) => Some(t.clone()),
                None => None,
            },
        }
    }
}

/// The resolved-ancestor bundle of one command kind.
#[derive(Debug)]
pub enum Constraint {
    Board(BoardConstraint),
    List(ListConstraint),
    Card(CardConstraint),
    Checklist(ChecklistConstraint),
    Login(bool),
}

/// Boards need only the requesting user.
#[derive(Debug)]
pub struct BoardConstraint {
    pub user: Result<User, bool>,
}

/// Cards sit under a board and a list.
#[derive(Debug)]
pub struct CardConstraint {
    pub board: Artifact,
    pub list: Artifact,
}

/// Lists sit under a board.
#[derive(Debug)]
pub struct ListConstraint {
    pub board: Artifact,
}

/// Swimlanes sit under a board.
#[derive(Debug)]
pub struct SwimlaneConstraint {
    pub board: Artifact,
}

/// Checklists sit under a board, a list and a card.
#[derive(Debug)]
pub struct ChecklistConstraint {
    pub board: Artifact,
    pub list: Artifact,
    pub card: Artifact,
}

impl Clone for BoardConstraint {
    fn clone(&self) -> (r: Self)
        ensures
            r == *self,
    {
        BoardConstraint {
            user: match &self.user {
                Ok(u) => Ok(u.clone()),
                Err(b) => Err(*b),
            },
        }
    }
}

impl Clone for CardConstraint {
    fn clone(&self) -> (r: Self)
        ensures
            r == *self,
    {
        CardConstraint { board: self.board.clone(), list: self.list.clone() }
    }
}

impl Clone for ListConstraint {
    fn clone(&self) -> (r: Self)
        ensures
            r == *self,
    {
        ListConstraint { board: self.board.clone() }
    }
}

impl Clone for SwimlaneConstraint {
    fn clone(&self) -> (r: Self)
        ensures
            r == *self,
    {
        SwimlaneConstraint { board: self.board.clone() }
    }
}

impl Clone for ChecklistConstraint {
    fn clone(&self) -> (r: Self)
        ensures
            r == *self,
    {
        ChecklistConstraint {
            board: self.board.clone(),
            list: self.list.clone(),
            card: self.card.clone(),
        }
    }
}

impl Clone for Constraint {
    fn clone(&self) -> (r: Self)
        ensures
            r == *self,
    {
        match self {
            Constraint::Board(c) => Constraint::Board(c.clone()),
            Constraint::List(c) => Constraint::List(c.clone()),
            Constraint::Card(c) => Constraint::Card(c.clone()),
            Constraint::Checklist(c) => Constraint::Checklist(c.clone()),
            Constraint::Login(b) => Constraint::Login(*b),
        }
    }
}

} // verus!
