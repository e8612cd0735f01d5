//! The argument shapes of the shared subcommands: list, create, remove,
//! inspect, details, and the free-standing describe, table, apply and
//! archive commands.

use vstd::prelude::*;
use vstd::string::*;

use crate::artifact::AType;

verus! {

/// `ls`: list every artifact of the bound kind.
#[derive(Debug, Clone, Copy)]
pub struct List {}

/// `details`: show one artifact's detail view.
#[derive(Debug, Clone, Copy)]
pub struct Details {}

/// `rm`: remove one artifact by name.
#[derive(Debug, Clone, Copy)]
pub struct Remove {}

/// `create`: create an artifact with a title.
#[derive(Debug)]
pub struct Create {
    pub title: String,
}

impl Clone for Create {
    fn clone(&self) -> (r: Self)
        ensures
            r == *self,
    {
        Create { title: self.title.clone() }
    }
}

impl Create {
    /// The requested title.
    pub fn get_title(&self) -> (r: String)
        ensures
            r == self.title,
    {
        self.title.clone()
    }

    /// The stand-in description of a bare create.
    pub fn get_description(&self) -> (r: String)
        ensures
            r@ == "Description not available"@,
    {
        String::from_str("Description not available")
    }
}

/// The explicitly supplied ancestor ids of an id-based command.
#[derive(Debug)]
pub struct Delegate {
    pub board_id: Option<String>,
    pub list_id: Option<String>,
    pub card_id: Option<String>,
}

impl Clone for Delegate {
    fn clone(&self) -> (r: Self)
        ensures
            r == *self,
    {
        Delegate {
            board_id: match &self.board_id {
                Some(b) => Some(b.clone()),
                None => None,
            },
            list_id: match &self.list_id {
                Some(l) => Some(l.clone()),
                None => None,
            },
            card_id: match &self.card_id {
                Some(c) => Some(c.clone()),
                None => None,
            },
        }
    }
}

/// `inspect`: show one artifact by its id, ancestors supplied explicitly.
#[derive(Debug)]
pub struct Inspect {
    pub id: String,
    pub delegate: Delegate,
}

impl Clone for Inspect {
    fn clone(&self) -> (r: Self)
        ensures
            r == *self,
    {
        Inspect { id: self.id.clone(), delegate: self.delegate.clone() }
    }
}

/// `describe`: show one artifact by `type/name`.
#[derive(Debug)]
pub struct Describe {
    pub resource: String,
    pub delegate: Delegate,
}

impl Clone for Describe {
    fn clone(&self) -> (r: Self)
        ensures
            r == *self,
    {
        Describe { resource: self.resource.clone(), delegate: self.delegate.clone() }
    }
}

/// `table`: show a board with its lists and cards.
#[derive(Debug)]
pub struct Table {
    pub name: String,
    pub filter: Option<String>,
}

impl Clone for Table {
    fn clone(&self) -> (r: Self)
        ensures
            r == *self,
    {
        Table {
            name: self.name.clone(),
            filter: match &self.filter {
                Some(f) => Some(f.clone()),
                None => None,
            },
        }
    }
}

/// `apply`: update an artifact from a file.
#[derive(Debug)]
pub struct Apply {
    pub task_file: String,
}

/// `archive`: archive an artifact, or restore one.
#[derive(Debug, Clone, Copy)]
pub struct Archive {
    pub restore: bool,
}

/// `get`: fetch one artifact of a kind by name.
#[derive(Debug)]
pub struct Get {
    pub kind: AType,
    pub name: String,
    pub mandatory: Delegate,
}

/// `config set-context`: save the current configuration under a name.
#[derive(Debug)]
pub struct SetContext {
    pub name: String,
}

/// `config remove-context`: delete a saved context.
#[derive(Debug)]
pub struct DeleteContext {
    pub name: String,
}

/// `config use-context`: switch to a saved context.
#[derive(Debug)]
pub struct UseContext {
    pub name: String,
}

/// `config set-credentials`: user, host and connection scheme.
#[derive(Debug)]
pub struct SetCredentials {
    pub user: String,
    pub host: String,
    pub insecure: bool,
}

/// `config remove-credentials`: forget the stored token.
#[derive(Debug, Clone, Copy)]
pub struct DeleteCredentials {}

/// `config remove`: drop a context, or the whole configuration, after an
/// explicit word of consent.
#[derive(Debug)]
pub struct RemoveConfig {
    pub please: String,
    pub confirm: bool,
    pub context: Option<String>,
    pub context_confirm: bool,
}

/// The subcommands every artifact kind shares.
#[derive(Debug)]
pub enum CommonCommand {
    Ls(List),
    Details(Details),
    Create(Create),
    Inspect(Inspect),
    Remove(Remove),
}

impl Clone for CommonCommand {
    fn clone(&self) -> (r: Self)
        ensures
            r == *self,
    {
        match self {
            CommonCommand::Ls(l) => CommonCommand::Ls(l.clone()),
            CommonCommand::Details(d) => CommonCommand::Details(d.clone()),
            CommonCommand::Create(c) => CommonCommand::Create(c.clone()),
            CommonCommand::Inspect(i) => CommonCommand::Inspect(i.clone()),
            CommonCommand::Remove(rm) => CommonCommand::Remove(rm.clone()),
        }
    }
}

} // verus!
