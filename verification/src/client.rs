//! The REST clients' verified half: route construction per artifact kind.
//! The transfer itself stays outside; what stands here is every URL the
//! client ever asks for.

use vstd::prelude::*;
use vstd::string::*;

use crate::artifact::AType;
use crate::config::{api_address_text, UserConfig};

verus! {

/// The client that performs the login handshake.
#[derive(Debug)]
pub struct LoginClient {
    pub config: UserConfig,
}

impl Clone for LoginClient {
    fn clone(&self) -> (r: Self)
        ensures
            r == *self,
    {
        LoginClient { config: self.config.clone() }
    }
}

impl LoginClient {
    /// Binds a configuration.
    pub fn new(config: UserConfig) -> (r: Self)
        ensures
            r.config == config,
    {
        LoginClient { config }
    }

    /// The API root this client talks to.
    pub fn get_api_address(&self) -> (r: String)
        ensures
            r@ == api_address_text(self.config.address.host@, self.config.address.port),
    {
        self.config.get_api_address()
    }
}

/// The collection route for lists under a board.
pub open spec fn list_base(board_id: Seq<char>) -> Seq<char> {
    "boards/"@ + board_id + "/lists/"@
}

/// The collection route for swimlanes under a board.
pub open spec fn swimlane_base(board_id: Seq<char>) -> Seq<char> {
    "boards/"@ + board_id + "/swimlanes/"@
}

/// The collection route for cards under a list.
pub open spec fn card_base(board_id: Seq<char>, list_id: Seq<char>) -> Seq<char> {
    "boards/"@ + board_id + "/lists/"@ + list_id + "/cards/"@
}

/// The collection route for checklists under a card.
pub open spec fn checklist_base(board_id: Seq<char>, card_id: Seq<char>) -> Seq<char> {
    "boards/"@ + board_id + "/cards/"@ + card_id + "/checklists/"@
}

/// An artifact client: a configuration, the collection route it is bound
/// to, and the ancestor ids that route was built from.
#[derive(Debug)]
pub struct Client {
    pub config: UserConfig,
    pub base: String,
    pub id: String,
}

impl Clone for Client {
    fn clone(&self) -> (r: Self)
        ensures
            r == *self,
    {
        Client { config: self.config.clone(), base: self.base.clone(), id: self.id.clone() }
    }
}

impl Client {
    /// A client bound to the boards collection.
    pub fn new(config: UserConfig) -> (r: Self)
        ensures
            r.config == config,
            r.base@ == "boards/"@,
            r.id@ == Seq::<char>::empty(),
    {
        Client { config, base: String::from_str("boards/"), id: String::new() }
    }

    /// Rebinds the collection route.
    pub fn set_base(&mut self, base: &str) -> (r: String)
        ensures
            final(self).base@ == base@,
            final(self).config == old(self).config,
            final(self).id == old(self).id,
            r@ == base@,
    {
        self.base = base.to_owned();
        self.base.clone()
    }

    /// A client bound to the lists of one board.
    pub fn new_list_client(config: UserConfig, board_id: &str) -> (r: Self)
        ensures
            r.config == config,
            r.base@ == list_base(board_id@),
            r.id@ == board_id@,
    {
        let mut base = String::from_str("boards/");
        base.append(board_id);
        base.append("/lists/");
        Client { config, base, id: board_id.to_owned() }
    }

    /// A client bound to the swimlanes of one board.
    pub fn new_swimlane_client(config: UserConfig, board_id: &str) -> (r: Self)
        ensures
            r.config == config,
            r.base@ == swimlane_base(board_id@),
            r.id@ == board_id@,
    {
        let mut base = String::from_str("boards/");
        base.append(board_id);
        base.append("/swimlanes/");
        Client { config, base, id: board_id.to_owned() }
    }

    /// A client bound to the cards of one list; its id joins both
    /// ancestors.
    pub fn new_card_client(config: UserConfig, board_id: &str, list_id: &str) -> (r: Self)
        ensures
            r.config == config,
            r.base@ == card_base(board_id@, list_id@),
            r.id@ == board_id@ + list_id@,
    {
        let mut base = String::from_str("boards/");
        base.append(board_id);
        base.append("/lists/");
        base.append(list_id);
        base.append("/cards/");
        let mut id = board_id.to_owned();
        id.append(list_id);
        Client { config, base, id }
    }

    /// A client bound to the checklists of one card.
    pub fn new_checklist_client(config: UserConfig, board_id: &str, card_id: &str) -> (r: Self)
        ensures
            r.config == config,
            r.base@ == checklist_base(board_id@, card_id@),
            r.id@ == board_id@ + card_id@,
    {
        let mut base = String::from_str("boards/");
        base.append(board_id);
        base.append("/cards/");
        base.append(card_id);
        base.append("/checklists/");
        let mut id = board_id.to_owned();
        id.append(card_id);
        Client { config, base, id }
    }

    /// A client for the given kind under the given ancestors; boards take
    /// none, cards and checklists take two.
    pub fn for_kind(config: UserConfig, kind: AType, board_id: &str, second_id: &str) -> (r: Self)
        ensures
            r.config == config,
            kind == AType::Board ==> r.base@ == "boards/"@,
            kind == AType::List ==> r.base@ == list_base(board_id@),
            kind == AType::Swimlane ==> r.base@ == swimlane_base(board_id@),
            kind == AType::Card ==> r.base@ == card_base(board_id@, second_id@),
            kind == AType::Checklist ==> r.base@ == checklist_base(board_id@, second_id@),
            kind == AType::Empty ==> r.base@ == "boards/"@,
    {
        match kind {
            AType::List => Client::new_list_client(config, board_id),
            AType::Swimlane => Client::new_swimlane_client(config, board_id),
            AType::Card => Client::new_card_client(config, board_id, second_id),
            AType::Checklist => Client::new_checklist_client(config, board_id, second_id),
            AType::Board => Client::new(config),
            AType::Empty => Client::new(config),
        }
    }

    /// The id of the ancestor this client was bound under.
    pub fn get_base_id(&self) -> (r: String)
        ensures
            r == self.id,
    {
        self.id.clone()
    }

    /// The URL of the bound collection.
    pub fn get_artifacts_url(&self) -> (r: String)
        ensures
            r@ == api_address_text(self.config.address.host@, self.config.address.port)
                + self.base@,
    {
        let mut s = self.config.get_api_address();
        s.append(self.base.as_str());
        s
    }

    /// The URL of one artifact in the bound collection.
    pub fn get_artifact_url(&self, id: &str) -> (r: String)
        ensures
            r@ == api_address_text(self.config.address.host@, self.config.address.port)
                + self.base@ + id@,
    {
        let mut s = self.get_artifacts_url();
        s.append(id);
        s
    }

    /// The user's boards route, the one listing that is keyed by user
    /// rather than by ancestor artifact.
    pub fn user_boards_base(user_id: &str) -> (r: String)
        ensures
            r@ == "users/"@ + user_id@ + "/boards"@,
    {
        let mut s = String::from_str("users/");
        s.append(user_id);
        s.append("/boards");
        s
    }
}

} // verus!
