//! The artifact model: the lightweight id/title/kind handle that every
//! board, list, card, swimlane and checklist shares, the kind tag itself,
//! and the detail payload that the display layer prints.

use vstd::prelude::*;
use vstd::string::*;

use crate::error::ParseError;
use crate::strutil::eq_str;

verus! {

/// The kind of an artifact; `Empty` is the null kind, never matched and
/// without children.
#[derive(Debug, Clone, Copy, PartialEq, Eq, Structural)]
pub enum AType {
    Empty,
    Board,
    List,
    Card,
    Swimlane,
    Checklist,
}

/// The canonical name of an artifact kind.
pub open spec fn atype_name(t: AType) -> Seq<char> {
    match t {
        AType::Board => "board"@,
        AType::List => "list"@,
        AType::Card => "card"@,
        AType::Swimlane => "swimlane"@,
        AType::Empty => "artifact"@,
        AType::Checklist => "checklist"@,
    }
}

/// The kind that a name denotes, under the strict reading that rejects
/// unknown names.
pub open spec fn atype_of_name(s: Seq<char>) -> Option<AType> {
    if s == "board"@ {
        Some(AType::Board)
    } else if s == "list"@ {
        Some(AType::List)
    } else if s == "card"@ || s == "cardType-card"@ {
        Some(AType::Card)
    } else if s == "swimlane"@ {
        Some(AType::Swimlane)
    } else if s == "template-container"@ {
        Some(AType::Empty)
    } else if s == "checklist"@ {
        Some(AType::Checklist)
    } else {
        None
    }
}

/// The kind that a name denotes, under the wider reading that also accepts
/// the null kind's own name.
pub open spec fn atype_of_loose_name(s: Seq<char>) -> Option<AType> {
    if s == "artifact"@ {
        Some(AType::Empty)
    } else {
        atype_of_name(s)
    }
}

impl AType {
    /// The canonical name of this kind.
    pub fn to_string(&self) -> (r: String)
        ensures
            r@ == atype_name(*self),
    {
        match self {
            AType::Board => String::from_str("board"),
            AType::List => String::from_str("list"),
            AType::Card => String::from_str("card"),
            AType::Swimlane => String::from_str("swimlane"),
            AType::Empty => String::from_str("artifact"),
            AType::Checklist => String::from_str("checklist"),
        }
    }

    /// Reads a kind from its name; unknown names are an error.
    pub fn from_str(s: &str) -> (r: Result<AType, ParseError>)
        ensures
            match r {
                Ok(t) => atype_of_name(s@) == Some(t),
                Err(e) => atype_of_name(s@) is None && e.message@ == "Not a Wekan kind"@,
            },
    {
        if eq_str(s, "board") {
            Ok(AType::Board)
        } else if eq_str(s, "list") {
            Ok(AType::List)
        } else if eq_str(s, "card") || eq_str(s, "cardType-card") {
            Ok(AType::Card)
        } else if eq_str(s, "swimlane") {
            Ok(AType::Swimlane)
        } else if eq_str(s, "template-container") {
            Ok(AType::Empty)
        } else if eq_str(s, "checklist") {
            Ok(AType::Checklist)
        } else {
            Err(ParseError::new("Not a Wekan kind"))
        }
    }

    /// Reads a kind from its name, accepting the null kind's name as well.
    /// Callers must hand in a known name.
    pub fn from(s: String) -> (r: AType)
        requires
            atype_of_loose_name(s@) is Some,
        ensures
            atype_of_loose_name(s@) == Some(r),
    {
        if eq_str(s.as_str(), "artifact") {
            AType::Empty
        } else {
            match AType::from_str(s.as_str()) {
                Ok(t) => t,
                Err(_) => AType::Empty,
            }
        }
    }
}

impl Default for AType {
    /// Boards are the default kind.
    fn default() -> (r: Self)
        ensures
            r == AType::Board,
    {
        AType::Board
    }
}

/// The lightweight handle for any artifact: remote id, title and kind.
#[derive(Debug)]
pub struct Artifact {
    pub _id: String,
    pub title: String,
    pub kind: AType,
}

impl Clone for Artifact {
    fn clone(&self) -> (r: Self)
        ensures
            r == *self,
    {
        Artifact { _id: self._id.clone(), title: self.title.clone(), kind: self.kind }
    }
}

impl Artifact {
    /// The remote id.
    pub fn get_id(&self) -> (r: String)
        ensures
            r == self._id,
    {
        self._id.clone()
    }

    /// The title.
    pub fn get_title(&self) -> (r: String)
        ensures
            r == self.title,
    {
        self.title.clone()
    }

    /// The kind tag.
    pub fn get_type(&self) -> (r: AType)
        ensures
            r == self.kind,
    {
        self.kind
    }

    /// Replaces the id and returns the new value.
    pub fn set_id(&mut self, id: &str) -> (r: String)
        ensures
            final(self)._id@ == id@,
            final(self).title == old(self).title,
            final(self).kind == old(self).kind,
            r == final(self)._id,
    {
        self._id = id.to_owned();
        self._id.clone()
    }

    /// Replaces the kind tag and returns the new value.
    pub fn set_type(&mut self, t: AType) -> (r: AType)
        ensures
            final(self).kind == t,
            final(self)._id == old(self)._id,
            final(self).title == old(self).title,
            r == t,
    {
        self.kind = t;
        self.kind
    }

    /// The handle rendered as an Emacs Lisp association list.
    pub fn to_elisp(&self) -> (r: String)
        ensures
            r@ == "((_id . "@ + self._id@ + ") (title . "@ + self.title@ + ")) "@,
    {
        let mut s = String::from_str("((_id . ");
        s.append(self._id.as_str());
        s.append(") (title . ");
        s.append(self.title.as_str());
        s.append(")) ");
        s
    }
}

/// Stamps every element of a listing with one kind tag, as the remote API
/// leaves the kind implicit in the route.
pub fn satisfy_type(v: &mut Vec<Artifact>, t: AType)
    ensures
        final(v)@.len() == old(v)@.len(),
        forall|i: int|
            0 <= i < old(v)@.len() ==> {
                &&& (#[trigger] final(v)@[i]).kind == t
                &&& final(v)@[i]._id == old(v)@[i]._id
                &&& final(v)@[i].title == old(v)@[i].title
            },
{
    let mut i: usize = 0;
    while i < v.len()
        invariant
            i <= v@.len(),
            v@.len() == old(v)@.len(),
            forall|j: int|
                i <= j < v@.len() ==> #[trigger] v@[j] == old(v)@[j],
            forall|j: int|
                0 <= j < i ==> {
                    &&& (#[trigger] v@[j]).kind == t
                    &&& v@[j]._id == old(v)@[j]._id
                    &&& v@[j].title == old(v)@[j].title
                },
        decreases v@.len() - i,
    {
        let id = v[i]._id.clone();
        let title = v[i].title.clone();
        v.set(i, Artifact { _id: id, title, kind: t });
        i = i + 1;
    }
}

/// The work-in-progress limit attached to a list.
#[derive(Debug, Clone, Copy)]
pub struct WipLimit {
    pub value: i8,
    pub enabled: bool,
    pub soft: bool,
}

impl WipLimit {
    /// A disabled limit of zero.
    pub fn new() -> (r: Self)
        ensures
            r.value == 0,
            !r.enabled,
            !r.soft,
    {
        WipLimit { value: 0, enabled: false, soft: false }
    }
}

impl Default for WipLimit {
    fn default() -> (r: Self)
        ensures
            r.value == 0,
            !r.enabled,
            !r.soft,
    {
        WipLimit::new()
    }
}

/// The detail payload of one artifact, reduced to the fields the client
/// reads: identity, title, dates and description.
#[derive(Debug)]
pub struct Details {
    pub _id: Option<String>,
    pub title: String,
    pub created_at: String,
    pub modified_at: String,
    pub due_at: Option<String>,
    pub end_at: Option<String>,
    pub description: Option<String>,
}

impl Clone for Details {
    fn clone(&self) -> (r: Self)
        ensures
            r == *self,
    {
        Details {
            _id: match &self._id {
                Some(i) => Some(i.clone()),
                None => None,
            },
            title: self.title.clone(),
            created_at: self.created_at.clone(),
            modified_at: self.modified_at.clone(),
            due_at: match &self.due_at {
                Some(d) => Some(d.clone()),
                None => None,
            },
            end_at: match &self.end_at {
                Some(d) => Some(d.clone()),
                None => None,
            },
            description: match &self.description {
                Some(d) => Some(d.clone()),
                None => None,
            },
        }
    }
}

/// The id that a detail payload shows: the stored one, or a placeholder
/// when the payload carries none.
pub open spec fn details_id(d: &Details) -> Seq<char> {
    match d._id {
        Some(i) => i@,
        None => "XXXXX"@,
    }
}

impl Details {
    /// The id, or a placeholder when none was stored.
    pub fn get_id(&self) -> (r: String)
        ensures
            r@ == details_id(self),
    {
        match &self._id {
            Some(i) => i.clone(),
            None => String::from_str("XXXXX"),
        }
    }

    /// The title.
    pub fn get_title(&self) -> (r: String)
        ensures
            r == self.title,
    {
        self.title.clone()
    }

    /// Replaces the id and returns the new value.
    pub fn set_id(&mut self, id: &str) -> (r: String)
        ensures
            final(self)._id matches Some(i) && i@ == id@,
            final(self).title == old(self).title,
            r@ == id@,
    {
        self._id = Some(id.to_owned());
        id.to_owned()
    }

    /// The modification timestamp.
    pub fn get_modified_at(&self) -> (r: String)
        ensures
            r == self.modified_at,
    {
        self.modified_at.clone()
    }

    /// The creation timestamp.
    pub fn get_created_at(&self) -> (r: String)
        ensures
            r == self.created_at,
    {
        self.created_at.clone()
    }

    /// The due date, empty when none is set.
    pub fn get_due_at(&self) -> (r: String)
        ensures
            match self.due_at {
                Some(d) => r == d,
                None => r@ == Seq::<char>::empty(),
            },
    {
        match &self.due_at {
            Some(d) => d.clone(),
            None => String::new(),
        }
    }

    /// The end date, empty when none is set.
    pub fn get_end_at(&self) -> (r: String)
        ensures
            match self.end_at {
                Some(d) => r == d,
                None => r@ == Seq::<char>::empty(),
            },
    {
        match &self.end_at {
            Some(d) => d.clone(),
            None => String::new(),
        }
    }

    /// The description, empty when none is set.
    pub fn get_description(&self) -> (r: String)
        ensures
            match self.description {
                Some(d) => r == d,
                None => r@ == Seq::<char>::empty(),
            },
    {
        match &self.description {
            Some(d) => d.clone(),
            None => String::new(),
        }
    }
}

} // verus!
