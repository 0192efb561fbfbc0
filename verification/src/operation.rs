//! The exchange between the library and its caller during an installation or
//! a removal.
//!
//! The two are sequences of tasks. The library decides which task comes
//! next and says what performing it takes, as an [`Operation`]; the caller
//! performs the operation, by running a command, writing a file or asking
//! the operator, and reports what happened, as an [`Event`].

use crate::command::{CommandOutcome, CommandOutput, Invocation, InvocationView};
use crate::config::Config;
use crate::error::{outcome_view, Error, ErrorView};
use crate::user::{effective_uid, get_real_current_user, group_exists};
use vstd::prelude::*;
use vstd::string::*;

verus! {

/// Whether the failure of a task ends the operation.
#[derive(Clone, Copy, Debug, PartialEq, Eq, Structural)]
pub enum FailurePolicy {
    /// The failure is noted and the operation goes on.
    BestEffort,
    /// The failure ends the operation and is its result.
    Fatal,
}

/// One of the two files that an installation writes. Their contents are the
/// caller's.
#[derive(Clone, Copy, Debug, PartialEq, Eq, Structural)]
pub enum Asset {
    /// The helper script.
    Script,
    /// The daemon's descriptor.
    Descriptor,
}

/// A question about the users and groups of the system.
#[derive(Clone, Copy, Debug, PartialEq, Eq, Structural)]
pub enum Query {
    /// Under which user id does the process act?
    EffectiveUid,
    /// Does the access group exist?
    GroupExists,
    /// On whose behalf does the process act?
    RealUser,
}

/// What performing a task takes.
#[derive(Debug, PartialEq, Eq)]
pub enum Operation {
    /// Answer a question; [`observe`] does.
    Lookup(Query),
    /// Ask the operator to confirm.
    Ask { prompt: String },
    /// Audit the device permissions.
    Audit,
    /// Run a command.
    Run(Invocation),
    /// Run a command and keep what it prints.
    Capture(Invocation),
    /// Create a directory and the directories above it.
    CreateDir { path: String },
    /// Write a file.
    WriteFile { path: String, asset: Asset },
    /// Remove a directory with all it holds.
    RemoveDir { path: String },
    /// Remove a file.
    RemoveFile { path: String },
}

/// An [`Operation`] with its texts as sequences of characters.
pub enum OperationView {
    Lookup(Query),
    Ask { prompt: Seq<char> },
    Audit,
    Run(InvocationView),
    Capture(InvocationView),
    CreateDir { path: Seq<char> },
    WriteFile { path: Seq<char>, asset: Asset },
    RemoveDir { path: Seq<char> },
    RemoveFile { path: Seq<char> },
}

impl View for Operation {
    type V = OperationView;

    open spec fn view(&self) -> OperationView {
        match self {
            Operation::Lookup(query) => OperationView::Lookup(*query),
            Operation::Ask { prompt } => OperationView::Ask { prompt: prompt@ },
            Operation::Audit => OperationView::Audit,
            Operation::Run(invocation) => OperationView::Run(invocation@),
            Operation::Capture(invocation) => OperationView::Capture(invocation@),
            Operation::CreateDir { path } => OperationView::CreateDir { path: path@ },
            Operation::WriteFile { path, asset } => OperationView::WriteFile {
                path: path@,
                asset: *asset,
            },
            Operation::RemoveDir { path } => OperationView::RemoveDir { path: path@ },
            Operation::RemoveFile { path } => OperationView::RemoveFile { path: path@ },
        }
    }
}

/// How an operation on a file or a directory ended.
#[derive(Clone, Copy, Debug, PartialEq, Eq, Structural)]
pub enum FileOutcome {
    /// It was done.
    Done,
    /// There was nothing at the path.
    Missing,
    /// It failed for another reason.
    Failed,
}

/// What performing a task gave.
#[derive(Debug, PartialEq, Eq)]
pub enum Event {
    /// The user id that the process acts under.
    EffectiveUid(u32),
    /// The operator's answer.
    Confirmed(bool),
    /// The result of the permission audit.
    Audited(Result<(), Error>),
    /// Whether the access group exists.
    GroupFound(bool),
    /// How a captured command ended and what it printed.
    Listed(CommandOutput),
    /// How a command ended.
    Ran(CommandOutcome),
    /// The name of the user on whose behalf the process acts, where one
    /// could be resolved.
    User(Option<String>),
    /// How an operation on a file or a directory ended.
    File(FileOutcome),
}

/// An [`Event`] with its texts as sequences of characters.
pub enum EventView {
    EffectiveUid(u32),
    Confirmed(bool),
    Audited(Result<(), ErrorView>),
    GroupFound(bool),
    Listed { outcome: CommandOutcome, stdout: Seq<u8> },
    Ran(CommandOutcome),
    User(Option<Seq<char>>),
    File(FileOutcome),
}

impl View for Event {
    type V = EventView;

    open spec fn view(&self) -> EventView {
        match self {
            Event::EffectiveUid(uid) => EventView::EffectiveUid(*uid),
            Event::Confirmed(yes) => EventView::Confirmed(*yes),
            Event::Audited(result) => EventView::Audited(outcome_view(*result)),
            Event::GroupFound(found) => EventView::GroupFound(*found),
            Event::Listed(output) => EventView::Listed {
                outcome: output.outcome,
                stdout: output.stdout@,
            },
            Event::Ran(outcome) => EventView::Ran(*outcome),
            Event::User(name) => EventView::User(
                match name {
                    Some(name) => Some(name@),
                    None => None,
                },
            ),
            Event::File(outcome) => EventView::File(*outcome),
        }
    }
}

/// Whether `event` is of the kind that performing `operation` gives.
pub open spec fn answers(operation: OperationView, event: EventView) -> bool {
    match operation {
        OperationView::Lookup(Query::EffectiveUid) => event is EffectiveUid,
        OperationView::Lookup(Query::GroupExists) => event is GroupFound,
        OperationView::Lookup(Query::RealUser) => event is User,
        OperationView::Ask { .. } => event is Confirmed,
        OperationView::Audit => event is Audited,
        OperationView::Run(_) => event is Ran,
        OperationView::Capture(_) => event is Listed,
        OperationView::CreateDir { .. } => event is File,
        OperationView::WriteFile { .. } => event is File,
        OperationView::RemoveDir { .. } => event is File,
        OperationView::RemoveFile { .. } => event is File,
    }
}

/// What the operator said, where `event` is their answer.
pub open spec fn answer_of(event: EventView) -> Option<bool> {
    match event {
        EventView::Confirmed(yes) => Some(yes),
        _ => None,
    }
}

impl Event {
    /// Whether this event is of the kind that performing `operation` gives.
    pub fn answers(&self, operation: &Operation) -> (yes: bool)
        ensures
            yes == answers(operation@, self@),
    {
        match operation {
            Operation::Lookup(Query::EffectiveUid) => matches!(self, Event::EffectiveUid(_)),
            Operation::Lookup(Query::GroupExists) => matches!(self, Event::GroupFound(_)),
            Operation::Lookup(Query::RealUser) => matches!(self, Event::User(_)),
            Operation::Ask { .. } => matches!(self, Event::Confirmed(_)),
            Operation::Audit => matches!(self, Event::Audited(_)),
            Operation::Run(_) => matches!(self, Event::Ran(_)),
            Operation::Capture(_) => matches!(self, Event::Listed(_)),
            Operation::CreateDir { .. } => matches!(self, Event::File(_)),
            Operation::WriteFile { .. } => matches!(self, Event::File(_)),
            Operation::RemoveDir { .. } => matches!(self, Event::File(_)),
            Operation::RemoveFile { .. } => matches!(self, Event::File(_)),
        }
    }

    /// What the operator said, where the event is their answer.
    pub fn answer(&self) -> (answer: Option<bool>)
        ensures
            answer == answer_of(self@),
    {
        match self {
            Event::Confirmed(yes) => Some(*yes),
            _ => None,
        }
    }
}

/// Where an operation stands after a task.
#[derive(Debug, PartialEq, Eq)]
pub enum Progress<T> {
    /// The task to be performed next.
    Next(T),
    /// The operator declined; nothing was changed.
    Cancelled,
    /// Every task was performed.
    Finished,
    /// A task failed and the operation ended there.
    Failed(Error),
}

/// A [`Progress`] with its texts as sequences of characters.
pub enum ProgressView<T> {
    Next(T),
    Cancelled,
    Finished,
    Failed(ErrorView),
}

impl<T: View> View for Progress<T> {
    type V = ProgressView<T::V>;

    open spec fn view(&self) -> ProgressView<T::V> {
        match self {
            Progress::Next(task) => ProgressView::Next(task@),
            Progress::Cancelled => ProgressView::Cancelled,
            Progress::Finished => ProgressView::Finished,
            Progress::Failed(e) => ProgressView::Failed(e@),
        }
    }
}

/// What the confirmation gate says.
#[derive(Clone, Copy, Debug, PartialEq, Eq, Structural)]
pub enum Gate {
    /// The operation goes on.
    Proceed,
    /// The operator is to be asked.
    Ask,
    /// The operator declined.
    Declined,
}

/// The confirmation gate: with `auto_confirm` the operation goes on without
/// a question; else it goes on once the operator has said yes.
pub open spec fn gate(auto_confirm: bool, answer: Option<bool>) -> Gate {
    if auto_confirm {
        Gate::Proceed
    } else {
        match answer {
            None => Gate::Ask,
            Some(true) => Gate::Proceed,
            Some(false) => Gate::Declined,
        }
    }
}

/// Passes the confirmation gate. `answer` is what the operator said, or
/// `None` where they were not asked yet.
pub fn confirm_or_skip(auto_confirm: bool, answer: Option<bool>) -> (result: Gate)
    ensures
        result == gate(auto_confirm, answer),
{
    if auto_confirm {
        Gate::Proceed
    } else {
        match answer {
            None => Gate::Ask,
            Some(true) => Gate::Proceed,
            Some(false) => Gate::Declined,
        }
    }
}

/// Answers a question about the users and groups of the system.
/// `original_user` is the name that an elevation wrapper recorded of the
/// user who called it, where the process was started through one.
pub fn observe(config: &Config, query: Query, original_user: Option<&str>) -> (event: Event)
    ensures
        answers(OperationView::Lookup(query), event@),
{
    match query {
        Query::EffectiveUid => Event::EffectiveUid(effective_uid()),
        Query::GroupExists => Event::GroupFound(group_exists(config.group.as_str())),
        Query::RealUser => Event::User(
            match get_real_current_user(original_user) {
                Some(identity) => Some(identity.name),
                None => None,
            },
        ),
    }
}

} // verus!
