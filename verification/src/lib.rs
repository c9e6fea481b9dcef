//! An anonymous command pipeline.
//!
//! A `Command` describes one program invocation: a program name and its
//! ordered argument list. A `CommandPipe` is an ordered chain of commands
//! whose standard streams are meant to be wired together the way a shell
//! wires `cmd1 | cmd2 | ...`: each stage's standard output feeds the next
//! stage's standard input, and the terminal stage's exit code and captured
//! streams become the pipeline's `Output`.
//!
//! Creating OS processes is outside this crate: the pipeline is a state
//! machine that hands out one launch request per stage, in order, and takes
//! back what the launcher reports. A small unverified driver can walk it
//! against any process-creation facility.

pub mod cmd;
pub mod error;
pub mod output;
pub mod pipe;
pub mod tokenizer;

pub use cmd::Command;
pub use error::APipeError;
pub use pipe::CommandPipe;
