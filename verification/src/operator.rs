//! The shared subcommand protocol every artifact kind runs: dispatching a
//! parsed invocation, resolving names, shaping the fixed outcome messages,
//! and the details-then-children combinator.

use vstd::prelude::*;
use vstd::string::*;

use crate::artifact::{Artifact, AType, Details};
use crate::display::{artifacts_message, details_message, CliDisplay};
use crate::filter::opt_view;
use crate::strutil::has_char;
use crate::error::{CliError, CoreError, Error};
use crate::resolver::FetchGoal;
use crate::result::WekanResult;
use crate::subcommand::{CommonCommand, Create, Inspect};

verus! {

/// The child kind each artifact kind traverses into: boards hold lists and
/// lists hold cards; every other kind has none.
pub open spec fn child_kind(kind: AType) -> AType {
    match kind {
        AType::Board => AType::List,
        AType::List => AType::Card,
        _ => AType::Empty,
    }
}

/// A children listing is fetched only for the two kinds that appear as
/// somebody's child kind.
pub open spec fn issues_children_fetch(children_kind: AType) -> bool {
    children_kind == AType::List || children_kind == AType::Card
}

/// Children combinator idempotence: a kind whose child kind is the null
/// kind — cards and checklists among them — never issues a children fetch;
/// its details call fetches the artifact alone.
pub proof fn lemma_no_children_fetch(kind: AType)
    requires
        child_kind(kind) == AType::Empty,
    ensures
        !issues_children_fetch(child_kind(kind)),
{
}

/// What a bare invocation of an artifact command does next.
#[derive(Debug)]
pub enum RootAction {
    /// A subcommand was given: dispatch to it.
    Specific,
    /// No subcommand, but a name: show that artifact's details.
    DetailsOf { name: String },
    /// Neither: list everything of the kind.
    Ls,
}

/// Dispatches a bare invocation: a present subcommand wins, a bare name
/// means details, and nothing at all means a listing.
pub fn root_dispatch(has_subcommand: bool, name: Option<String>) -> (r: RootAction)
    ensures
        has_subcommand ==> r is Specific,
        (!has_subcommand && name is Some) ==> (r matches RootAction::DetailsOf { name: rn } && rn
            == name->Some_0),
        (!has_subcommand && name is None) ==> r is Ls,
{
    if has_subcommand {
        RootAction::Specific
    } else {
        match name {
            Some(n) => RootAction::DetailsOf { name: n },
            None => RootAction::Ls,
        }
    }
}

/// What a common subcommand asks for once its name argument is settled.
#[derive(Debug)]
pub enum CommonAction {
    DoLs,
    DoCreate(Create),
    DoRemove { name: String },
    DoDetails { name: String },
    DoInspect(Inspect),
    Fail(Error),
}

/// Dispatches one of the shared subcommands. Removing or describing an
/// artifact needs the name argument; without it the invocation fails with
/// the fixed message.
pub fn common_dispatch(cmd: CommonCommand, name: Option<String>) -> (r: CommonAction)
    ensures
        cmd is Ls ==> r is DoLs,
        cmd is Create ==> (r matches CommonAction::DoCreate(c) && c == cmd->Create_0),
        cmd is Inspect ==> (r matches CommonAction::DoInspect(i) && i == cmd->Inspect_0),
        (cmd is Remove && name is Some) ==> (r matches CommonAction::DoRemove { name: n } && n
            == name->Some_0),
        (cmd is Details && name is Some) ==> (r matches CommonAction::DoDetails { name: n } && n
            == name->Some_0),
        ((cmd is Remove || cmd is Details) && name is None) ==> (r matches CommonAction::Fail(e)
            && (e matches Error::Cli(ce) && ce.message@
            == "Name option '-n' needs to be supplied"@)),
{
    match cmd {
        CommonCommand::Ls(_) => CommonAction::DoLs,
        CommonCommand::Create(c) => CommonAction::DoCreate(c),
        CommonCommand::Inspect(i) => CommonAction::DoInspect(i),
        CommonCommand::Remove(_) => match name {
            Some(n) => CommonAction::DoRemove { name: n },
            None => CommonAction::Fail(
                CliError::new_msg("Name option '-n' needs to be supplied").as_enum(),
            ),
        },
        CommonCommand::Details(_) => match name {
            Some(n) => CommonAction::DoDetails { name: n },
            None => CommonAction::Fail(
                CliError::new_msg("Name option '-n' needs to be supplied").as_enum(),
            ),
        },
    }
}

/// The operator of one artifact kind: the shared protocol bound to a kind
/// tag.
#[derive(Debug, Clone, Copy)]
pub struct Operator {
    pub kind: AType,
}

impl Operator {
    /// An operator bound to one kind.
    pub fn new(kind: AType) -> (r: Self)
        ensures
            r.kind == kind,
    {
        Operator { kind }
    }

    /// The bound kind.
    pub fn get_type(&self) -> (r: AType)
        ensures
            r == self.kind,
    {
        self.kind
    }

    /// The kind this kind traverses into for its children listing.
    pub fn get_children_type(&self) -> (r: AType)
        ensures
            r == child_kind(self.kind),
    {
        match self.kind {
            AType::Board => AType::List,
            AType::List => AType::Card,
            _ => AType::Empty,
        }
    }

    /// The name argument, or the fixed complaint when it is missing.
    pub fn unwrap_name(name: Option<String>) -> (r: Result<String, Error>)
        ensures
            match name {
                Some(n) => r == Ok::<String, Error>(n),
                None => (r matches Err(Error::Cli(ce)) && ce.message@ == "Name not supplied '-n'"@
                    && ce.error_code == 1),
            },
    {
        match name {
            Some(n) => Ok(n),
            None => Err(CliError::new_msg("Name not supplied '-n'").as_enum()),
        }
    }

    /// The children fetch a details call issues: lists under the shown
    /// board, cards under the shown list keyed by the client's bound board,
    /// and for kinds without children no fetch at all.
    pub fn children_fetch(&self, id: &str, client_base_id: &str) -> (r: Option<FetchGoal>)
        ensures
            child_kind(self.kind) == AType::List ==> (r matches Some(g) && (g
                matches FetchGoal::Lists { board_id } && board_id@ == id@)),
            child_kind(self.kind) == AType::Card ==> (r matches Some(g) && (g
                matches FetchGoal::Cards { board_id, list_id } && board_id@ == client_base_id@
                && list_id@ == id@)),
            !issues_children_fetch(child_kind(self.kind)) ==> r is None,
    {
        match self.get_children_type() {
            AType::List => Some(FetchGoal::Lists { board_id: id.to_owned() }),
            AType::Card => Some(
                FetchGoal::Cards { board_id: client_base_id.to_owned(), list_id: id.to_owned() },
            ),
            _ => None,
        }
    }

    /// Appends the children listing to a details result: a failed fetch
    /// passes through, an empty listing becomes the no-children workflow
    /// hint, and anything else is printed below the fixed children header.
    pub fn get_children(
        &self,
        display: &mut CliDisplay,
        base: &WekanResult,
        children: Result<Vec<Artifact>, Error>,
    ) -> (r: Result<WekanResult, Error>)
        ensures
            match children {
                Err(e) => r == Err::<WekanResult, Error>(e),
                Ok(cs) => if cs@.len() == 0 {
                    (r matches Ok(wr) && wr.message@ == base.message@
                        + "This artifact contains no children"@ && wr.exit_code == 0 && (
                    wr.next_workflow matches Some(n) && n@
                        == "Create a children using the subcommand"@))
                } else {
                    (r matches Ok(wr) && wr.message@ == base.message@
                        + "Following children are available:\n"@ + artifacts_message(
                        cs@,
                        Seq::<char>::empty(),
                    ) && wr.exit_code == 0 && (wr.next_workflow matches Some(n) && n@
                        == "Get or update details of an artifact."@))
                },
            },
    {
        match children {
            Err(e) => Err(e),
            Ok(cs) => {
                if cs.len() == 0 {
                    let mut msg = base.get_msg();
                    msg.append("This artifact contains no children");
                    WekanResult::new_workflow(
                        msg.as_str(),
                        "Create a children using the subcommand",
                    ).ok()
                } else {
                    let mut header = base.get_msg();
                    header.append("Following children are available:\n");
                    display.prepare_output(header.as_str(), cs, String::new())
                }
            },
        }
    }

    /// The next step a successful create suggests: go on to the children
    /// the new artifact can hold, or to its details where it holds none.
    pub open spec fn create_hint(kind: AType) -> Seq<char> {
        match kind {
            AType::Board => "Create a list with subcommand 'list create --help'"@,
            AType::List => "Create a card with subcommand 'card create --help'"@,
            _ => "Get or update details of an artifact."@,
        }
    }

    /// The fixed outcome of a create call: a confirmation with the kind's
    /// next-step workflow hint on success, one fixed complaint on failure.
    pub fn create_message<T>(&self, response: Result<T, CoreError>) -> (r: Result<
        WekanResult,
        Error,
    >)
        ensures
            match response {
                Ok(_) => (r matches Ok(wr) && wr.message@ == "Successfully created"@
                    && wr.exit_code == 0 && (wr.next_workflow matches Some(n) && n@
                    == Operator::create_hint(self.kind))),
                Err(_) => (r matches Err(Error::Cli(ce)) && ce.message@ == "Failed to create"@
                    && ce.error_code == 1),
            },
    {
        match response {
            Ok(_) => {
                let hint = match self.kind {
                    AType::Board => "Create a list with subcommand 'list create --help'",
                    AType::List => "Create a card with subcommand 'card create --help'",
                    _ => "Get or update details of an artifact.",
                };
                WekanResult::new_workflow("Successfully created", hint).ok()
            },
            Err(_) => CliError::new_msg("Failed to create").err(),
        }
    }

    /// The fixed outcome of a delete call.
    pub fn remove_message<T>(response: Result<T, CoreError>) -> (r: Result<WekanResult, Error>)
        ensures
            match response {
                Ok(_) => (r matches Ok(wr) && wr.message@ == "Successfully deleted"@
                    && wr.exit_code == 0 && wr.next_workflow is None),
                Err(_) => (r matches Err(Error::Cli(ce)) && ce.message@ == "Failed to delete"@
                    && ce.error_code == 1),
            },
    {
        match response {
            Ok(_) => WekanResult::new_msg("Successfully deleted").ok(),
            Err(_) => CliError::new_msg("Failed to delete").err(),
        }
    }

    /// Prints a fetched listing; a failed fetch surfaces as the transport
    /// error itself.
    pub fn get_all(
        &self,
        display: &mut CliDisplay,
        fetched: Result<Vec<Artifact>, CoreError>,
        format: String,
    ) -> (r: Result<WekanResult, Error>)
        ensures
            match fetched {
                Ok(v) => (r matches Ok(wr) && wr.message@ == artifacts_message(v@, format@)
                    && wr.exit_code == 0),
                Err(e) => r == Err::<WekanResult, Error>(Error::Core(e)),
            },
    {
        match fetched {
            Ok(v) => display.print_artifacts(v, format),
            Err(e) => Err(Error::Core(e)),
        }
    }

    /// Prints one artifact's detail view; a failed fetch becomes the fixed
    /// details complaint. Delivered payloads carry full timestamps.
    pub fn get_one(
        &self,
        display: &mut CliDisplay,
        fetched: Result<Details, CoreError>,
        format: Option<String>,
    ) -> (r: Result<WekanResult, Error>)
        requires
            fetched matches Ok(d) ==> has_char(d.modified_at@, 'T') && has_char(
                d.created_at@,
                'T',
            ),
        ensures
            match fetched {
                Ok(d) => (r matches Ok(wr) && wr.message@ == details_message(d, opt_view(format))
                    && wr.exit_code == 0),
                Err(_) => (r matches Err(Error::Cli(ce)) && ce.message@
                    == "Failed to request details"@ && ce.error_code == 1),
            },
    {
        match fetched {
            Ok(d) => display.print_details(&d, format),
            Err(_) => CliError::new_msg("Failed to request details").err(),
        }
    }
}

} // verus!
