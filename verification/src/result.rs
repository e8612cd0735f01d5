//! The successful outcome of a command: a message, an exit code, and an
//! optional hint at the next workflow step.

use vstd::prelude::*;
use vstd::string::*;

use crate::error::Error;

verus! {

/// What a finished command hands to the caller.
#[derive(Debug)]
pub struct WekanResult {
    pub message: String,
    pub exit_code: i8,
    pub next_workflow: Option<String>,
}

impl Clone for WekanResult {
    fn clone(&self) -> (r: Self)
        ensures
            r == *self,
    {
        WekanResult {
            message: self.message.clone(),
            exit_code: self.exit_code,
            next_workflow: match &self.next_workflow {
                Some(w) => Some(w.clone()),
                None => None,
            },
        }
    }
}

impl WekanResult {
    /// A plain message with exit code 0 and no workflow hint.
    pub fn new_msg(msg: &str) -> (r: Self)
        ensures
            r.message@ == msg@,
            r.exit_code == 0,
            r.next_workflow is None,
    {
        WekanResult { message: msg.to_owned(), exit_code: 0, next_workflow: None }
    }

    /// A message with a workflow hint and exit code 0.
    pub fn new_workflow(msg: &str, workflow: &str) -> (r: Self)
        ensures
            r.message@ == msg@,
            r.exit_code == 0,
            r.next_workflow matches Some(w) && w@ == workflow@,
    {
        WekanResult {
            message: msg.to_owned(),
            exit_code: 0,
            next_workflow: Some(workflow.to_owned()),
        }
    }

    /// A message with an explicit exit code and optional workflow hint.
    pub fn new_exit(msg: &str, exit_code: i8, next_workflow: Option<String>) -> (r: Self)
        ensures
            r.message@ == msg@,
            r.exit_code == exit_code,
            r.next_workflow == next_workflow,
    {
        WekanResult { message: msg.to_owned(), exit_code, next_workflow }
    }

    /// This outcome as a successful command result.
    pub fn ok(&self) -> (r: Result<WekanResult, Error>)
        ensures
            r == Result::<WekanResult, Error>::Ok(*self),
    {
        Ok(self.clone())
    }

    /// The message.
    pub fn get_msg(&self) -> (r: String)
        ensures
            r == self.message,
    {
        self.message.clone()
    }

    /// The workflow hint, if any.
    pub fn get_next_workflow(&self) -> (r: Option<String>)
        ensures
            r == self.next_workflow,
    {
        match &self.next_workflow {
            Some(w) => Some(w.clone()),
            None => None,
        }
    }

    /// The exit code.
    pub fn get_exit_code(&self) -> (r: i8)
        ensures
            r == self.exit_code,
    {
        self.exit_code
    }
}

} // verus!
