//! The error taxonomy.
//!
//! Four classes of failure reach a caller: parse errors (a command string
//! with no token), launch errors (the launcher could not create a stage's
//! process), wait errors (a spawned stage could not be waited on), and usage
//! errors (asking for output before anything ran, spawning an empty
//! pipeline, appending an argument when no command is present). A stage that
//! runs and exits with a non-zero status is not an error of this crate.

use vstd::prelude::*;

verus! {

/// Everything that can go wrong while building, spawning or querying a
/// pipeline.
#[derive(Debug)]
pub enum APipeError {
    /// A command string yielded no token at all; holds that string.
    MissingCommand(String),
    /// The pipeline held no command where at least one was needed.
    EmptyPipe,
    /// The launcher could not create a stage's process; holds the reported
    /// reason.
    FailedExecution(String),
    /// A spawned stage could not be waited on; holds the reported reason.
    TerminatedChildCommand(String),
    /// An already-launched stage had no standard-output endpoint to feed the
    /// next stage.
    NoStdout,
    /// The output was asked for although no execution has taken place.
    NoRunningProcesses,
}

impl APipeError {
    /// The error's description, one line per variant.
    pub open spec fn message_spec(&self) -> Seq<char> {
        match self {
            APipeError::MissingCommand(line) => "Tried to parse empty command string: "@ + line@,
            APipeError::EmptyPipe => "The pipe is empty."@,
            APipeError::FailedExecution(reason) => "Failed to spawn child command: "@ + reason@,
            APipeError::TerminatedChildCommand(reason) => "Child process exited with error code: "@
                + reason@,
            APipeError::NoStdout => "No stdout to pipe into the next command."@,
            APipeError::NoRunningProcesses => "No running processes."@,
        }
    }

    /// An equal copy of the error.
    pub fn duplicate(&self) -> (r: Self)
        ensures
            r == *self,
    {
        match self {
            APipeError::MissingCommand(line) => APipeError::MissingCommand(line.clone()),
            APipeError::EmptyPipe => APipeError::EmptyPipe,
            APipeError::FailedExecution(reason) => APipeError::FailedExecution(reason.clone()),
            APipeError::TerminatedChildCommand(reason) => APipeError::TerminatedChildCommand(
                reason.clone(),
            ),
            APipeError::NoStdout => APipeError::NoStdout,
            APipeError::NoRunningProcesses => APipeError::NoRunningProcesses,
        }
    }

    /// The underlying cause as the launcher or the platform reported it:
    /// present exactly for the launch and wait errors, which carry one.
    pub fn reason(&self) -> (r: Option<&String>)
        ensures
            match self {
                APipeError::FailedExecution(reason) => r == Some(reason),
                APipeError::TerminatedChildCommand(reason) => r == Some(reason),
                _ => r is None,
            },
    {
        match self {
            APipeError::FailedExecution(reason) => Some(reason),
            APipeError::TerminatedChildCommand(reason) => Some(reason),
            _ => None,
        }
    }

    /// The error's description, for reporting to a caller.
    pub fn message(&self) -> (r: String)
        ensures
            r@ == self.message_spec(),
    {
        match self {
            APipeError::MissingCommand(line) => {
                let mut m = "Tried to parse empty command string: ".to_owned();
                m.append(line.as_str());
                m
            },
            APipeError::EmptyPipe => "The pipe is empty.".to_owned(),
            APipeError::FailedExecution(reason) => {
                let mut m = "Failed to spawn child command: ".to_owned();
                m.append(reason.as_str());
                m
            },
            APipeError::TerminatedChildCommand(reason) => {
                let mut m = "Child process exited with error code: ".to_owned();
                m.append(reason.as_str());
                m
            },
            APipeError::NoStdout => "No stdout to pipe into the next command.".to_owned(),
            APipeError::NoRunningProcesses => "No running processes.".to_owned(),
        }
    }
}

} // verus!
