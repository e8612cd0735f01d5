//! Free-standing command decisions: validating user-typed values, reading
//! `type/name` resources for describe and inspect, and reading the
//! host argument of a login.

use vstd::prelude::*;
use vstd::string::*;

use crate::artifact::AType;
use crate::error::{CoreError, Error, InputError};
use crate::result::WekanResult;
use crate::strutil::{
    contains_str, digits_val, eq_str, is_digit, parse_port_digits, split_terminated,
    split_terminator_on, trim_str, trimmed,
};
use crate::subcommand::Delegate;
use crate::timeutil::{is_valid_day, parses_as_day};

verus! {

/// Validates a user-typed day: at most ten characters and a well-formed
/// Gregorian date.
pub fn valid_time(s: &str) -> (r: Result<(), String>)
    ensures
        match r {
            Ok(_) => s@.len() <= 10 && parses_as_day(s@),
            Err(m) => (s@.len() > 10 && m@ == "Day format is too long"@) || (s@.len() <= 10
                && !parses_as_day(s@) && m@ == "Not a correct date format YYYY-MM-DD"@),
        },
{
    if s.unicode_len() > 10 {
        Err(String::from_str("Day format is too long"))
    } else if is_valid_day(s) {
        Ok(())
    } else {
        Err(String::from_str("Not a correct date format YYYY-MM-DD"))
    }
}

/// Accepts only the literal word of consent for removing the whole
/// configuration.
pub fn only_config_allowed(s: &str) -> (r: Result<(), String>)
    ensures
        match r {
            Ok(_) => s@ == "please"@,
            Err(m) => s@ != "please"@ && m@ == "If you want to remove, say please."@,
        },
{
    proof {
        reveal_strlit("please");
    }
    let r = contains_str(s, "please") && s.unicode_len() == 6;
    if r {
        proof {
            let i = choose|i: int|
                0 <= i && i + "please"@.len() <= s@.len() && #[trigger] s@.subrange(
                    i,
                    i + "please"@.len() as int,
                ) == "please"@;
            assert(i == 0);
            assert(s@.subrange(0, 6) =~= s@);
        }
        Ok(())
    } else {
        proof {
            if s@ == "please"@ {
                assert(s@.subrange(0, 0 + "please"@.len() as int) =~= "please"@);
            }
        }
        Err(String::from_str("If you want to remove, say please."))
    }
}

/// Accepts only remote ids of the fixed published length.
pub fn verify_id_length(id: String) -> (r: Result<bool, Error>)
    ensures
        match r {
            Ok(b) => id@.len() == 17 && b,
            Err(e) => id@.len() != 17 && (e matches Error::Input(ie) && ie.message@
                == "Id is not of specified length. Use -o extended to get the complete id of an artifact."@),
        },
{
    if id.as_str().unicode_len() == 17 {
        Ok(true)
    } else {
        Err(
            InputError::new_msg(
                "Id is not of specified length. Use -o extended to get the complete id of an artifact.",
            ).as_enum(),
        )
    }
}

/// The artifact kind a resource tag names, long or short form.
pub open spec fn spec_resource_kind(t: Seq<char>) -> Option<AType> {
    if t == "board"@ || t == "b"@ {
        Some(AType::Board)
    } else if t == "list"@ || t == "l"@ {
        Some(AType::List)
    } else if t == "card"@ || t == "c"@ {
        Some(AType::Card)
    } else {
        None
    }
}

/// Reads the artifact kind off a resource tag.
pub fn resource_kind(t: &str) -> (r: Option<AType>)
    ensures
        r == spec_resource_kind(t@),
{
    if eq_str(t, "board") || eq_str(t, "b") {
        Some(AType::Board)
    } else if eq_str(t, "list") || eq_str(t, "l") {
        Some(AType::List)
    } else if eq_str(t, "card") || eq_str(t, "c") {
        Some(AType::Card)
    } else {
        None
    }
}

/// What a describe invocation does, settled from its resource text and the
/// supplied ancestors.
#[derive(Debug)]
pub enum DescribePlan {
    /// The resource is not `type/name`.
    BadFormat,
    /// The type tag names no artifact kind.
    UnknownType,
    /// Describe a board by name.
    Board { name: String },
    /// Describe a list by name under the given board.
    List { board_id: String, name: String },
    /// Describe a card by name under the given board and list.
    Card { board_id: String, list_id: String, name: String },
    /// A list describe without its board id.
    MissingBoard,
    /// A card describe without its list id.
    MissingList,
}

/// Settles a describe invocation. The resource must read `type/name`;
/// lists need their board id supplied, cards their board and list ids.
pub fn describe_plan(resource: &str, delegate: &Delegate) -> (r: DescribePlan)
    ensures
        ({
            let parts = split_terminated(resource@, '/');
            &&& parts.len() != 2 ==> r is BadFormat
            &&& (parts.len() == 2 && spec_resource_kind(parts[0]) is None) ==> r is UnknownType
            &&& (parts.len() == 2 && spec_resource_kind(parts[0]) == Some(AType::Board)) ==> (r
                matches DescribePlan::Board { name } && name@ == parts[1])
            &&& (parts.len() == 2 && spec_resource_kind(parts[0]) == Some(AType::List)) ==> match delegate
                .board_id {
                Some(b) => (r matches DescribePlan::List { board_id, name } && board_id == b
                    && name@ == parts[1]),
                None => r is MissingBoard,
            }
            &&& (parts.len() == 2 && spec_resource_kind(parts[0]) == Some(AType::Card)) ==> match delegate
                .board_id {
                Some(b) => match delegate.list_id {
                    Some(l) => (r matches DescribePlan::Card { board_id, list_id, name }
                        && board_id == b && list_id == l && name@ == parts[1]),
                    None => r is MissingList,
                },
                None => r is MissingBoard,
            }
        }),
{
    let parts = split_terminator_on(resource, '/');
    if parts.len() != 2 {
        return DescribePlan::BadFormat;
    }
    let name = parts[1].clone();
    match resource_kind(parts[0].as_str()) {
        None => DescribePlan::UnknownType,
        Some(AType::Board) => DescribePlan::Board { name },
        Some(AType::List) => match &delegate.board_id {
            Some(b) => DescribePlan::List { board_id: b.clone(), name },
            None => DescribePlan::MissingBoard,
        },
        Some(AType::Card) => match &delegate.board_id {
            Some(b) => match &delegate.list_id {
                Some(l) => DescribePlan::Card {
                    board_id: b.clone(),
                    list_id: l.clone(),
                    name,
                },
                None => DescribePlan::MissingList,
            },
            None => DescribePlan::MissingBoard,
        },
        Some(_) => DescribePlan::UnknownType,
    }
}

/// What an inspect invocation does, settled from its `type/id` resource
/// and the supplied ancestors.
#[derive(Debug)]
pub enum InspectPlan {
    /// The resource is not `type/id`.
    BadFormat,
    /// The type tag names no artifact kind.
    UnknownType,
    /// Inspect a board by id.
    Board { id: String },
    /// Inspect a list by id under the given board.
    List { board_id: String, id: String },
    /// Inspect a card by id under the given board and list.
    Card { board_id: String, list_id: String, id: String },
    /// A list inspect without its board id.
    MissingBoard,
    /// A card inspect without its list id.
    MissingList,
}

/// Settles an inspect invocation: `type/id` with every supplied id of the
/// published length; a malformed id is the fixed input error.
pub fn inspect_plan(resource: &str, delegate: &Delegate) -> (r: Result<InspectPlan, Error>)
    ensures
        ({
            let parts = split_terminated(resource@, '/');
            &&& parts.len() != 2 ==> r == Ok::<InspectPlan, Error>(InspectPlan::BadFormat)
            &&& (parts.len() == 2 && parts[1].len() != 17) ==> r is Err
            &&& (r matches Err(e) ==> (e matches Error::Input(ie) && ie.message@
                == "Id is not of specified length. Use -o extended to get the complete id of an artifact."@))
            &&& (parts.len() == 2 && parts[1].len() == 17 && spec_resource_kind(parts[0]) is None)
                ==> r == Ok::<InspectPlan, Error>(InspectPlan::UnknownType)
            &&& (parts.len() == 2 && parts[1].len() == 17 && spec_resource_kind(parts[0]) == Some(
                AType::Board,
            )) ==> (r matches Ok(p) && (p matches InspectPlan::Board { id } && id@ == parts[1]))
            &&& (parts.len() == 2 && parts[1].len() == 17 && spec_resource_kind(parts[0]) == Some(
                AType::List,
            )) ==> match delegate.board_id {
                Some(b) => if b@.len() == 17 {
                    (r matches Ok(p) && (p matches InspectPlan::List { board_id, id } && board_id
                        == b && id@ == parts[1]))
                } else {
                    r is Err
                },
                None => r == Ok::<InspectPlan, Error>(InspectPlan::MissingBoard),
            }
            &&& (parts.len() == 2 && parts[1].len() == 17 && spec_resource_kind(parts[0]) == Some(
                AType::Card,
            )) ==> match delegate.board_id {
                Some(b) => if b@.len() != 17 {
                    r is Err
                } else {
                    match delegate.list_id {
                        Some(l) => if l@.len() == 17 {
                            (r matches Ok(p) && (p matches InspectPlan::Card {
                                board_id,
                                list_id,
                                id,
                            } && board_id == b && list_id == l && id@ == parts[1]))
                        } else {
                            r is Err
                        },
                        None => r == Ok::<InspectPlan, Error>(InspectPlan::MissingList),
                    }
                },
                None => r == Ok::<InspectPlan, Error>(InspectPlan::MissingBoard),
            }
        }),
{
    let parts = split_terminator_on(resource, '/');
    if parts.len() != 2 {
        return Ok(InspectPlan::BadFormat);
    }
    let id = parts[1].clone();
    verify_id_length(id.clone())?;
    match resource_kind(parts[0].as_str()) {
        None => Ok(InspectPlan::UnknownType),
        Some(AType::Board) => Ok(InspectPlan::Board { id }),
        Some(AType::List) => match &delegate.board_id {
            Some(b) => {
                verify_id_length(b.clone())?;
                Ok(InspectPlan::List { board_id: b.clone(), id })
            },
            None => Ok(InspectPlan::MissingBoard),
        },
        Some(AType::Card) => match &delegate.board_id {
            Some(b) => {
                verify_id_length(b.clone())?;
                match &delegate.list_id {
                    Some(l) => {
                        verify_id_length(l.clone())?;
                        Ok(InspectPlan::Card { board_id: b.clone(), list_id: l.clone(), id })
                    },
                    None => Ok(InspectPlan::MissingList),
                }
            },
            None => Ok(InspectPlan::MissingBoard),
        },
        Some(_) => Ok(InspectPlan::UnknownType),
    }
}

/// What a login's host argument asks to change.
#[derive(Debug)]
pub enum HostSetting {
    /// Only a port was typed.
    Port(i16),
    /// Only a host was typed; the scheme and the local host name stand in.
    Host(String),
    /// `host:port`.
    Both { host: String, port: i16 },
    /// Anything else leaves the address alone.
    Unchanged,
}

/// The scheme a login builds its host from.
pub open spec fn scheme_text(insecure: bool) -> Seq<char> {
    if insecure {
        "http://"@
    } else {
        "https://"@
    }
}

/// Reads a login's host argument: a bare number is a port, a bare name is
/// the local host under the chosen scheme, `host:port` sets both, and a
/// port that is not a sound number is an input error.
pub fn parse_login_host(input: &str, insecure: bool) -> (r: Result<HostSetting, InputError>)
    ensures
        ({
            let parts = split_terminated(input@, ':');
            &&& parts.len() == 1 ==> {
                if exists|j: int| 0 <= j < parts[0].len() && !is_digit(parts[0][j]) {
                    (r matches Ok(h) && (h matches HostSetting::Host(hv) && hv@ == scheme_text(
                        insecure,
                    ) + "localhost"@))
                } else if parts[0].len() > 0 && digits_val(parts[0]) <= 32767 {
                    (r matches Ok(h) && (h matches HostSetting::Port(p) && p as int == digits_val(
                        parts[0],
                    )))
                } else {
                    (r matches Err(ie) && ie.message@ == "Not a valid port number"@)
                }
            }
            &&& parts.len() == 2 ==> {
                if (forall|j: int| 0 <= j < parts[1].len() ==> is_digit(parts[1][j])) && parts[1].len()
                    > 0 && digits_val(parts[1]) <= 32767 {
                    (r matches Ok(h) && (h matches HostSetting::Both { host, port } && host@
                        == scheme_text(insecure) + parts[0] && port as int == digits_val(
                        parts[1],
                    )))
                } else {
                    (r matches Err(ie) && ie.message@ == "Not a valid port number"@)
                }
            }
            &&& (parts.len() != 1 && parts.len() != 2) ==> r == Ok::<HostSetting, InputError>(
                HostSetting::Unchanged,
            )
        }),
{
    let mut scheme = String::from_str("http");
    if insecure {
        scheme.append("://");
    } else {
        scheme.append("s://");
    }
    proof {
        reveal_strlit("http");
        reveal_strlit("://");
        reveal_strlit("s://");
        reveal_strlit("http://");
        reveal_strlit("https://");
        if insecure {
            assert(scheme@ =~= "http://"@);
        } else {
            assert(scheme@ =~= "https://"@);
        }
    }
    let parts = split_terminator_on(input, ':');
    if parts.len() == 1 {
        if crate::strutil::all_digits(parts[0].as_str()) {
            match parse_port_digits(parts[0].as_str()) {
                Some(p) => Ok(HostSetting::Port(p)),
                None => Err(InputError::new_msg("Not a valid port number")),
            }
        } else {
            scheme.append("localhost");
            Ok(HostSetting::Host(scheme))
        }
    } else if parts.len() == 2 {
        match parse_port_digits(parts[1].as_str()) {
            Some(p) => {
                scheme.append(parts[0].as_str());
                Ok(HostSetting::Both { host: scheme, port: p })
            },
            None => Err(InputError::new_msg("Not a valid port number")),
        }
    } else {
        Ok(HostSetting::Unchanged)
    }
}

/// What the process prints and the code it exits with.
#[derive(Debug)]
pub struct ExitReport {
    pub stdout: String,
    pub stderr: String,
    pub code: i8,
}

/// Turns a finished command into what reaches the terminal: a success
/// prints its trimmed message, and its workflow hint unless those are
/// switched off; each error class keeps its fixed channel and exit code,
/// and no raw error internals reach standard output.
pub fn transform_to_exit(result: Result<WekanResult, Error>, no_recommendations: bool) -> (r:
    ExitReport)
    ensures
        match result {
            Ok(w) => {
                &&& r.code == w.exit_code
                &&& r.stderr@ == Seq::<char>::empty()
                &&& match w.next_workflow {
                    Some(wf) => if no_recommendations {
                        r.stdout@ == trimmed(w.message@)
                    } else {
                        r.stdout@ == trimmed(w.message@) + "\nRecommended workflow: "@ + trimmed(
                            wf@,
                        )
                    },
                    None => r.stdout@ == trimmed(w.message@),
                }
            },
            Err(e) => match e {
                Error::Cli(ce) => r.code == ce.error_code && r.stderr == ce.message && r.stdout@
                    == Seq::<char>::empty(),
                Error::Input(ie) => r.code == 0 && r.stdout == ie.message && r.stderr@
                    == Seq::<char>::empty(),
                Error::Core(core) => match core {
                    CoreError::Http(h) => r.code == 2 && r.stderr == h && r.stdout@
                        == Seq::<char>::empty(),
                    CoreError::Constraint(_) => r.code == 1 && r.stderr@
                        == "Constraint not fulfilled."@ && r.stdout@ == Seq::<char>::empty(),
                },
                Error::Store(_) => r.code == 4 && r.stderr@ == "No usable cache entry."@
                    && r.stdout@ == Seq::<char>::empty(),
            },
        },
{
    match result {
        Ok(w) => {
            let mut stdout = trim_str(w.message.as_str());
            match &w.next_workflow {
                Some(wf) => {
                    if !no_recommendations {
                        stdout.append("\nRecommended workflow: ");
                        stdout.append(trim_str(wf.as_str()).as_str());
                    }
                },
                None => {},
            }
            ExitReport { stdout, stderr: String::new(), code: w.exit_code }
        },
        Err(e) => match e {
            Error::Cli(ce) => ExitReport {
                stdout: String::new(),
                stderr: ce.message,
                code: ce.error_code,
            },
            Error::Input(ie) => ExitReport { stdout: ie.message, stderr: String::new(), code: 0 },
            Error::Core(core) => match core {
                CoreError::Http(h) => ExitReport { stdout: String::new(), stderr: h, code: 2 },
                CoreError::Constraint(_) => ExitReport {
                    stdout: String::new(),
                    stderr: String::from_str("Constraint not fulfilled."),
                    code: 1,
                },
            },
            Error::Store(_) => ExitReport {
                stdout: String::new(),
                stderr: String::from_str("No usable cache entry."),
                code: 4,
            },
        },
    }
}

} // verus!
