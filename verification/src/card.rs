//! Card-specific outcome rules: the fixed messages of moving, updating and
//! creating cards, and the swimlane gate a card creation passes first.

use vstd::prelude::*;
use vstd::string::*;

use crate::error::{CliError, CoreError, Error};
use crate::http::ResponseOk;
use crate::result::WekanResult;

verus! {

/// The fixed outcome of a card move.
pub fn move_outcome(response: Result<ResponseOk, CoreError>) -> (r: Result<WekanResult, Error>)
    ensures
        match response {
            Ok(_) => (r matches Ok(wr) && wr.message@ == "Successfully moved"@ && wr.exit_code == 0
                && (wr.next_workflow matches Some(n) && n@ == "Update card with more details"@)),
            Err(_) => (r matches Err(Error::Cli(ce)) && ce.message@ == "Failed to update"@
                && ce.error_code == 1),
        },
{
    match response {
        Ok(_) => WekanResult::new_workflow(
            "Successfully moved",
            "Update card with more details",
        ).ok(),
        Err(_) => CliError::new_msg("Failed to update").err(),
    }
}

/// The fixed outcome of a card field update; a successful update goes on
/// to show the card's details.
pub fn put_outcome(response: Result<ResponseOk, CoreError>) -> (r: Result<(), Error>)
    ensures
        match response {
            Ok(_) => r is Ok,
            Err(_) => (r matches Err(Error::Cli(ce)) && ce.message@ == "Failed to update"@
                && ce.error_code == 1),
        },
{
    match response {
        Ok(_) => Ok(()),
        Err(_) => Err(Error::Cli(CliError::new_msg("Failed to update"))),
    }
}

/// The swimlane gate of a card creation: a failed default-swimlane lookup
/// becomes the fixed complaint, a found id passes through.
pub fn swimlane_gate(swimlane: Result<String, Error>) -> (r: Result<String, Error>)
    ensures
        match swimlane {
            Ok(id) => r == Ok::<String, Error>(id),
            Err(_) => (r matches Err(Error::Cli(ce)) && ce.message@
                == "List can not be matched to swimlane"@ && ce.error_code == 1),
        },
{
    match swimlane {
        Ok(id) => Ok(id),
        Err(_) => Err(CliError::new_msg("List can not be matched to swimlane").as_enum()),
    }
}

/// The fixed outcome of a card creation.
pub fn card_create_message(response: Result<ResponseOk, CoreError>) -> (r: Result<
    WekanResult,
    Error,
>)
    ensures
        match response {
            Ok(_) => (r matches Ok(wr) && wr.message@ == "Successfully created"@ && wr.exit_code
                == 0 && (wr.next_workflow matches Some(n) && n@ == "Move card or update card"@)),
            Err(_) => (r matches Err(Error::Cli(ce)) && ce.message@ == "Failed to create"@
                && ce.error_code == 1),
        },
{
    match response {
        Ok(_) => WekanResult::new_workflow("Successfully created", "Move card or update card").ok(),
        Err(_) => CliError::new_msg("Failed to create").err(),
    }
}

/// The fixed outcome of a failed card lookup during an update.
pub fn card_lookup_gate(found: Result<String, Error>) -> (r: Result<String, Error>)
    ensures
        match found {
            Ok(id) => r == Ok::<String, Error>(id),
            Err(_) => (r matches Err(Error::Cli(ce)) && ce.message@ == "Failed to find card"@
                && ce.error_code == 1),
        },
{
    match found {
        Ok(id) => Ok(id),
        Err(_) => Err(CliError::new_msg("Failed to find card").as_enum()),
    }
}

} // verus!
