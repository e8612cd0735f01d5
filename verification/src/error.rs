//! The error taxonomy: user-facing command errors, input errors, transport
//! errors carried up from the client, and the silent cache-miss marker.

use vstd::prelude::*;
use vstd::string::*;

use crate::result::WekanResult;
use crate::validation::Constraint;

verus! {

/// A failed parse of a plain value, with its message.
#[derive(Debug)]
pub struct ParseError {
    pub message: String,
}

impl ParseError {
    /// Wraps a message.
    pub fn new(msg: &str) -> (r: Self)
        ensures
            r.message@ == msg@,
    {
        ParseError { message: msg.to_owned() }
    }
}

/// An error of the transport layer, reduced to the text that diagnostics
/// keep.
#[derive(Debug)]
pub enum CoreError {
    Http(String),
    Constraint(Constraint),
}

/// The transport layer's success note.
#[derive(Debug)]
pub struct CoreOk {
    pub name: String,
}

/// A cache lookup that found nothing usable; always treated as a miss,
/// never shown to the user.
#[derive(Debug, Clone, Copy, PartialEq, Eq, Structural)]
pub struct StoreError {
    pub found: bool,
}

/// Malformed user input, with its message.
#[derive(Debug)]
pub struct InputError {
    pub message: String,
}

/// A command that failed, with exit code, message and the constraint it
/// worked under, if any.
#[derive(Debug)]
pub struct CliError {
    pub error_code: i8,
    pub message: String,
    pub constraint: Option<Constraint>,
}

/// Any error a command can surface.
#[derive(Debug)]
pub enum Error {
    Core(CoreError),
    Cli(CliError),
    Input(InputError),
    Store(StoreError),
}

impl CliError {
    /// A failure tied to a constraint, with exit code 1.
    pub fn new_constraint(msg: &str, constraint: Constraint) -> (r: Self)
        ensures
            r.message@ == msg@,
            r.constraint == Some(constraint),
            r.error_code == 1,
    {
        CliError { message: msg.to_owned(), constraint: Some(constraint), error_code: 1 }
    }

    /// A failure tied to a constraint, with the given exit code.
    pub fn new(code: i8, message: &str, constraint: Constraint) -> (r: Self)
        ensures
            r.message@ == message@,
            r.constraint == Some(constraint),
            r.error_code == code,
    {
        CliError { message: message.to_owned(), constraint: Some(constraint), error_code: code }
    }

    /// A bare failure message with exit code 1.
    pub fn new_msg(msg: &str) -> (r: Self)
        ensures
            r.message@ == msg@,
            r.constraint is None,
            r.error_code == 1,
    {
        CliError { message: msg.to_owned(), constraint: None, error_code: 1 }
    }

    /// This error as the shared error type.
    pub fn as_enum(self) -> (r: Error)
        ensures
            r == Error::Cli(self),
    {
        Error::Cli(self)
    }

    /// This error as a failed command result.
    pub fn err(self) -> (r: Result<WekanResult, Error>)
        ensures
            r == Result::<WekanResult, Error>::Err(Error::Cli(self)),
    {
        Err(Error::Cli(self))
    }
}

impl InputError {
    /// A bare input failure message.
    pub fn new_msg(msg: &str) -> (r: Self)
        ensures
            r.message@ == msg@,
    {
        InputError { message: msg.to_owned() }
    }

    /// This error as the shared error type.
    pub fn as_enum(self) -> (r: Error)
        ensures
            r == Error::Input(self),
    {
        Error::Input(self)
    }

    /// This error as a failed command result.
    pub fn err(self) -> (r: Result<WekanResult, Error>)
        ensures
            r == Result::<WekanResult, Error>::Err(Error::Input(self)),
    {
        Err(Error::Input(self))
    }
}

} // verus!
