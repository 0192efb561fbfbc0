//! Command lines for the system utilities, and the judgement of how a run of
//! one ended.

use crate::error::{Error, ErrorView};
use vstd::prelude::*;
use vstd::string::*;

verus! {

/// How the run of an external command ended.
#[derive(Clone, Copy, Debug, PartialEq, Eq, Structural)]
pub enum CommandOutcome {
    /// The program could not be started.
    NotStarted,
    /// The program ran and exited with this code.
    Exited(i32),
    /// A signal ended the program before it could exit.
    Signaled,
}

impl CommandOutcome {
    /// The program ran and exited with code zero.
    pub open spec fn succeeded(self) -> bool {
        self == CommandOutcome::Exited(0)
    }

    /// The exit code, where the program exited by itself.
    pub open spec fn status(self) -> Option<i32> {
        match self {
            CommandOutcome::Exited(code) => Some(code),
            _ => None,
        }
    }

    /// Whether the program ran and exited with code zero.
    pub fn success(&self) -> (ok: bool)
        ensures
            ok == self.succeeded(),
    {
        match self {
            CommandOutcome::Exited(code) => *code == 0,
            _ => false,
        }
    }
}

/// A command line, with the words that describe its purpose in messages.
#[derive(Clone, Debug, PartialEq, Eq)]
pub struct Invocation {
    /// The program to start.
    pub program: String,
    /// Its arguments, in order.
    pub args: Vec<String>,
    /// What the command is run to do, as in "delete group access_bpf".
    pub action: String,
}

/// An [`Invocation`] with its texts as sequences of characters.
pub struct InvocationView {
    pub program: Seq<char>,
    pub args: Seq<Seq<char>>,
    pub action: Seq<char>,
}

impl View for Invocation {
    type V = InvocationView;

    open spec fn view(&self) -> InvocationView {
        InvocationView {
            program: self.program@,
            args: self.args.deep_view(),
            action: self.action@,
        }
    }
}

impl Invocation {
    /// A command line that starts `program` with no arguments yet.
    pub fn new(program: &str) -> (invocation: Invocation)
        ensures
            invocation@ == (InvocationView {
                program: program@,
                args: Seq::empty(),
                action: Seq::empty(),
            }),
    {
        let invocation = Invocation {
            program: program.to_owned(),
            args: Vec::new(),
            action: String::new(),
        };
        assert(invocation.args.deep_view() =~= Seq::empty());
        invocation
    }

    /// Appends one argument.
    pub fn arg(&mut self, word: &str)
        ensures
            final(self)@ == (InvocationView { args: old(self)@.args.push(word@), ..old(self)@ }),
    {
        self.args.push(word.to_owned());
        assert(self.args.deep_view() =~= old(self).args.deep_view().push(word@));
    }

    /// Says what the command is run to do.
    pub fn describe(&mut self, action: String)
        ensures
            final(self)@ == (InvocationView { action: action@, ..old(self)@ }),
    {
        self.action = action;
    }
}

/// What a command printed, with how it ended.
#[derive(Clone, Debug, PartialEq, Eq)]
pub struct CommandOutput {
    /// How the run ended.
    pub outcome: CommandOutcome,
    /// The bytes it wrote to its standard output.
    pub stdout: Vec<u8>,
}

/// The error that `outcome` means for `invocation`, where it is no success:
/// a program that did not start is an I/O failure on the program, any other
/// ending a failed command with its status.
pub open spec fn failure(invocation: InvocationView, outcome: CommandOutcome) -> ErrorView {
    match outcome {
        CommandOutcome::NotStarted => ErrorView::IoError {
            context: "Failed to "@ + invocation.action,
            path: invocation.program,
        },
        _ => ErrorView::ExternalCommandFailed {
            action: invocation.action,
            status: outcome.status(),
        },
    }
}

/// Judges a finished run of `invocation`: success is exit code zero and
/// nothing else.
pub fn run(invocation: &Invocation, outcome: CommandOutcome) -> (result: Result<(), Error>)
    ensures
        result is Ok <==> outcome.succeeded(),
        result matches Err(e) ==> e@ == failure(invocation@, outcome),
{
    match outcome {
        CommandOutcome::Exited(code) => {
            if code == 0 {
                Ok(())
            } else {
                Err(Error::ExternalCommandFailed {
                    action: invocation.action.clone(),
                    status: Some(code),
                })
            }
        },
        CommandOutcome::Signaled => Err(
            Error::ExternalCommandFailed { action: invocation.action.clone(), status: None },
        ),
        CommandOutcome::NotStarted => {
            let mut context = "Failed to ".to_owned();
            context.append(invocation.action.as_str());
            Err(Error::IoError { context, path: invocation.program.clone() })
        },
    }
}

} // verus!
