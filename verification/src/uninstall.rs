//! The removal: the daemon is taken out, the access group is deleted, and
//! the helper script and the daemon's descriptor are removed.
//!
//! The first task is [`UninstallTask::CheckPrivilege`]; [`uninstall_daemon`]
//! says after each task which comes next.

use crate::command::{failure, run};
use crate::config::{Config, ConfigView};
use crate::daemon::{bootout, unload_daemon, unload_failure, unloaded};
use crate::error::{Error, ErrorView};
use crate::operation::{
    answer_of, answers, confirm_or_skip, gate, Event, EventView, FileOutcome, Gate, Operation,
    OperationView, Progress, ProgressView, Query,
};
use crate::user::{delete_group, group_deletion, privilege};
use vstd::prelude::*;
use vstd::string::*;

verus! {

/// The tasks of a removal, in the order in which they are performed.
#[derive(Clone, Copy, Debug, PartialEq, Eq, Structural)]
pub enum UninstallTask {
    /// Find out whether the process has elevated privilege.
    CheckPrivilege,
    /// Ask the operator to confirm.
    Confirm,
    /// Take the daemon out of the service manager.
    Bootout,
    /// Find out whether the access group exists.
    FindGroup,
    /// Delete the access group.
    DeleteGroup,
    /// Remove the directory of the helper script.
    RemoveScriptDir,
    /// Remove the daemon's descriptor.
    RemoveDescriptor,
}

impl View for UninstallTask {
    type V = UninstallTask;

    open spec fn view(&self) -> UninstallTask {
        *self
    }
}

/// The question that the operator is asked before a removal.
pub const UNINSTALL_PROMPT: &'static str = "Uninstall the chmod-bpf launch daemon?";

/// What performing `task` of a removal takes.
pub open spec fn uninstall_operation(config: ConfigView, task: UninstallTask) -> OperationView {
    match task {
        UninstallTask::CheckPrivilege => OperationView::Lookup(Query::EffectiveUid),
        UninstallTask::Confirm => OperationView::Ask { prompt: UNINSTALL_PROMPT@ },
        UninstallTask::Bootout => OperationView::Run(bootout(config.plist_path)),
        UninstallTask::FindGroup => OperationView::Lookup(Query::GroupExists),
        UninstallTask::DeleteGroup => OperationView::Run(group_deletion(config.group)),
        UninstallTask::RemoveScriptDir => OperationView::RemoveDir { path: config.script_dir },
        UninstallTask::RemoveDescriptor => OperationView::RemoveFile { path: config.plist_path },
    }
}

/// The words that say which file operation of a removal failed.
pub open spec fn uninstall_context(task: UninstallTask) -> Seq<char> {
    match task {
        UninstallTask::RemoveScriptDir => "Failed to delete script directory"@,
        _ => "Failed to delete plist"@,
    }
}

/// The failure that `event` means for `task` of a removal, if it means one.
/// What is gone already counts as removed: a file or directory that is
/// missing is no failure, and neither is a daemon that was not loaded.
pub open spec fn uninstall_failure(
    config: ConfigView,
    task: UninstallTask,
    event: EventView,
) -> Option<ErrorView> {
    match event {
        EventView::EffectiveUid(uid) => if uid == 0 {
            None
        } else {
            Some(ErrorView::PermissionDenied)
        },
        EventView::Ran(outcome) => match task {
            UninstallTask::Bootout => unload_failure(config.plist_path, outcome),
            UninstallTask::DeleteGroup => if outcome.succeeded() {
                None
            } else {
                Some(failure(group_deletion(config.group), outcome))
            },
            _ => None,
        },
        EventView::File(outcome) => match uninstall_operation(config, task) {
            OperationView::RemoveDir { path } => if outcome == FileOutcome::Failed {
                Some(ErrorView::IoError { context: uninstall_context(task), path })
            } else {
                None
            },
            OperationView::RemoveFile { path } => if outcome == FileOutcome::Failed {
                Some(ErrorView::IoError { context: uninstall_context(task), path })
            } else {
                None
            },
            _ => None,
        },
        _ => None,
    }
}

/// Where a removal stands after `task` gave `event`, failures aside. The
/// daemon is stopped before anything it uses is removed; the group is
/// deleted only where it exists; the files go last.
pub open spec fn uninstall_successor(
    auto_confirm: bool,
    task: UninstallTask,
    event: EventView,
) -> ProgressView<UninstallTask> {
    match task {
        UninstallTask::CheckPrivilege => match gate(auto_confirm, None) {
            Gate::Proceed => ProgressView::Next(UninstallTask::Bootout),
            Gate::Ask => ProgressView::Next(UninstallTask::Confirm),
            Gate::Declined => ProgressView::Cancelled,
        },
        UninstallTask::Confirm => match gate(auto_confirm, answer_of(event)) {
            Gate::Proceed => ProgressView::Next(UninstallTask::Bootout),
            Gate::Ask => ProgressView::Next(UninstallTask::Confirm),
            Gate::Declined => ProgressView::Cancelled,
        },
        UninstallTask::Bootout => ProgressView::Next(UninstallTask::FindGroup),
        UninstallTask::FindGroup => if event == EventView::GroupFound(true) {
            ProgressView::Next(UninstallTask::DeleteGroup)
        } else {
            ProgressView::Next(UninstallTask::RemoveScriptDir)
        },
        UninstallTask::DeleteGroup => ProgressView::Next(UninstallTask::RemoveScriptDir),
        UninstallTask::RemoveScriptDir => ProgressView::Next(UninstallTask::RemoveDescriptor),
        UninstallTask::RemoveDescriptor => ProgressView::Finished,
    }
}

/// Where a removal stands after `task` gave `event`: every failure ends it.
pub open spec fn uninstall_step(
    config: ConfigView,
    auto_confirm: bool,
    task: UninstallTask,
    event: EventView,
) -> ProgressView<UninstallTask> {
    match uninstall_failure(config, task, event) {
        Some(e) => ProgressView::Failed(e),
        None => uninstall_successor(auto_confirm, task, event),
    }
}

impl UninstallTask {
    /// What performing the task takes.
    pub fn operation(&self, config: &Config) -> (operation: Operation)
        ensures
            operation@ == uninstall_operation(config@, *self),
    {
        match self {
            UninstallTask::CheckPrivilege => Operation::Lookup(Query::EffectiveUid),
            UninstallTask::Confirm => Operation::Ask { prompt: UNINSTALL_PROMPT.to_owned() },
            UninstallTask::Bootout => Operation::Run(unload_daemon(config.plist_path.as_str())),
            UninstallTask::FindGroup => Operation::Lookup(Query::GroupExists),
            UninstallTask::DeleteGroup => Operation::Run(delete_group(config.group.as_str())),
            UninstallTask::RemoveScriptDir => Operation::RemoveDir {
                path: config.script_dir.clone(),
            },
            UninstallTask::RemoveDescriptor => Operation::RemoveFile {
                path: config.plist_path.clone(),
            },
        }
    }

    /// The failure that `event` means for the task, if it means one.
    pub fn failure(&self, config: &Config, event: &Event) -> (problem: Option<Error>)
        ensures
            match problem {
                Some(e) => uninstall_failure(config@, *self, event@) == Some(e@),
                None => uninstall_failure(config@, *self, event@) is None,
            },
    {
        match event {
            Event::EffectiveUid(uid) => match privilege(*uid) {
                Ok(_) => None,
                Err(e) => Some(e),
            },
            Event::Ran(outcome) => match self {
                UninstallTask::Bootout => match unloaded(config.plist_path.as_str(), *outcome) {
                    Ok(_) => None,
                    Err(e) => Some(e),
                },
                UninstallTask::DeleteGroup => match run(
                    &delete_group(config.group.as_str()),
                    *outcome,
                ) {
                    Ok(_) => None,
                    Err(e) => Some(e),
                },
                _ => None,
            },
            Event::File(outcome) => {
                if !matches!(outcome, FileOutcome::Failed) {
                    return None;
                }
                match self {
                    UninstallTask::RemoveScriptDir => Some(
                        Error::IoError {
                            context: "Failed to delete script directory".to_owned(),
                            path: config.script_dir.clone(),
                        },
                    ),
                    UninstallTask::RemoveDescriptor => Some(
                        Error::IoError {
                            context: "Failed to delete plist".to_owned(),
                            path: config.plist_path.clone(),
                        },
                    ),
                    _ => None,
                }
            },
            _ => None,
        }
    }
}

/// Advances a removal: `task` was performed and gave `event`; the result
/// says what comes next. `auto_confirm` dispenses with the question to the
/// operator. An event that is no answer to the task gives `None`.
pub fn uninstall_daemon(
    config: &Config,
    auto_confirm: bool,
    task: UninstallTask,
    event: &Event,
) -> (progress: Option<Progress<UninstallTask>>)
    ensures
        progress is Some <==> answers(uninstall_operation(config@, task), event@),
        progress matches Some(p) ==> p@ == uninstall_step(config@, auto_confirm, task, event@),
{
    if !event.answers(&task.operation(config)) {
        return None;
    }
    match task.failure(config, event) {
        Some(e) => {
            return Some(Progress::Failed(e));
        },
        None => {},
    }
    let progress = match task {
        UninstallTask::CheckPrivilege => match confirm_or_skip(auto_confirm, None) {
            Gate::Proceed => Progress::Next(UninstallTask::Bootout),
            Gate::Ask => Progress::Next(UninstallTask::Confirm),
            Gate::Declined => Progress::Cancelled,
        },
        UninstallTask::Confirm => match confirm_or_skip(auto_confirm, event.answer()) {
            Gate::Proceed => Progress::Next(UninstallTask::Bootout),
            Gate::Ask => Progress::Next(UninstallTask::Confirm),
            Gate::Declined => Progress::Cancelled,
        },
        UninstallTask::Bootout => Progress::Next(UninstallTask::FindGroup),
        UninstallTask::FindGroup => match event {
            Event::GroupFound(true) => Progress::Next(UninstallTask::DeleteGroup),
            _ => Progress::Next(UninstallTask::RemoveScriptDir),
        },
        UninstallTask::DeleteGroup => Progress::Next(UninstallTask::RemoveScriptDir),
        UninstallTask::RemoveScriptDir => Progress::Next(UninstallTask::RemoveDescriptor),
        UninstallTask::RemoveDescriptor => Progress::Finished,
    };
    Some(progress)
}

} // verus!
