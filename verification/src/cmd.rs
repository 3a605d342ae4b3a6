//! The shared command I/O contract: the failure taxonomy, the output
//! envelope a handler produces, and the input envelope the executor
//! hands to a handler.

use vstd::prelude::*;
use vstd::string::StringExecFns;

verus! {

/// How executing a line can fail.
#[derive(Debug, Clone, PartialEq, Eq)]
pub enum Fallacy {
    /// The first token of a stage names no registered command; carries
    /// that name.
    UnknownCommand(String),
    /// The pipe structure of the line is malformed; carries the reason.
    InvalidChain(String),
    /// A handler failed; the message is the handler's own.
    HandlerError(String),
    /// Sentinel, not a true error: the user asked the shell to
    /// terminate. The surrounding loop exits on it instead of printing.
    ExitRequested,
}

/// What [`Fallacy::message`] returns, character for character.
pub open spec fn spec_message(f: Fallacy) -> Seq<char> {
    match f {
        Fallacy::UnknownCommand(n) => "Unknown command: "@ + n@,
        Fallacy::InvalidChain(m) => m@,
        Fallacy::HandlerError(m) => m@,
        Fallacy::ExitRequested => "Exit requested."@,
    }
}

impl Fallacy {
    /// Render the failure for display to the user.
    pub fn message(&self) -> (r: String)
        ensures
            r@ == spec_message(*self),
    {
        match self {
            Fallacy::UnknownCommand(n) => {
                let mut m = "Unknown command: ".to_owned();
                m.append(n.as_str());
                m
            },
            Fallacy::InvalidChain(m) => m.clone(),
            Fallacy::HandlerError(m) => m.clone(),
            Fallacy::ExitRequested => "Exit requested.".to_owned(),
        }
    }
}

/// What the surrounding input loop does with the outcome of one line.
#[derive(Debug, Clone, PartialEq, Eq)]
pub enum LoopAction {
    /// Show this output and read the next line.
    Show(String),
    /// Report this failure and read the next line.
    Report(String),
    /// Leave the loop: the user asked the shell to terminate.
    Quit,
}

/// Decide what the input loop does with one line's outcome: success is
/// shown, the termination sentinel ends the loop, and every other
/// failure is reported and the loop goes on.
pub fn loop_action(r: Result<String, Fallacy>) -> (a: LoopAction)
    ensures
        r matches Ok(m) ==> a matches LoopAction::Show(s) && s == m,
        r matches Err(f) ==> if f is ExitRequested {
            a is Quit
        } else {
            a matches LoopAction::Report(s) && s@ == spec_message(f)
        },
{
    match r {
        Ok(m) => LoopAction::Show(m),
        Err(Fallacy::ExitRequested) => LoopAction::Quit,
        Err(f) => LoopAction::Report(f.message()),
    }
}

/// What a handler produces: either silence, or a structured payload
/// that the next stage receives (or that the caller renders when the
/// stage is the last one).
#[derive(Debug, Clone, PartialEq, Eq)]
pub enum CommandOutput {
    /// Silent success: a blank line, a comment, or a command with
    /// nothing to say.
    Silent,
    /// References to records in the store, by index.
    Records(Vec<usize>),
    /// A string for display.
    Message(String),
}

/// What the executor hands to a handler: the stage's own argument
/// tokens (the first is the command's own name), and the previous
/// stage's output where there was one.
pub struct CommandInput {
    pub args: Vec<String>,
    pub prior: Option<CommandOutput>,
}

/// The `prior` field built from the previous stage's output: silence
/// is the same as there having been no previous stage.
pub open spec fn spec_prior(out: CommandOutput) -> Option<CommandOutput> {
    if out is Silent {
        Option::None
    } else {
        Option::Some(out)
    }
}

impl CommandInput {
    /// Package a stage's argument tokens with the previous stage's
    /// output.
    pub fn from_output(args: Vec<String>, out: CommandOutput) -> (r: CommandInput)
        ensures
            r.args == args,
            r.prior == spec_prior(out),
    {
        match out {
            CommandOutput::Silent => CommandInput { args, prior: Option::None },
            other => CommandInput { args, prior: Option::Some(other) },
        }
    }
}

} // verus!
