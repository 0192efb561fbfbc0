//! The installation: the access group is created and filled, the helper
//! script and the daemon's descriptor are put in place, and the daemon is
//! loaded.
//!
//! The first task is [`InstallTask::CheckPrivilege`]; [`install_daemon`] says
//! after each task which comes next.

use crate::command::{failure, run};
use crate::config::{Config, ConfigView};
use crate::daemon::{bootout, bootstrap, load_daemon, unload_daemon};
use crate::error::{Error, ErrorView, ResolutionFailure};
use crate::operation::{
    answer_of, answers, confirm_or_skip, gate, Asset, Event, EventView, FailurePolicy,
    FileOutcome, Gate, Operation, OperationView, Progress, ProgressView, Query,
};
use crate::permission::{
    mode_change, owner_change, recursive_mode_change, recursive_owner_change,
    set_owner_group, set_owner_group_recursive, set_read_execute_permissions_recursive,
    set_read_write_permissions,
};
use crate::user::{
    add_group_to_group, add_member, create_group, free_gid, get_free_gid, group_creation,
    group_edit, group_listing, list_group_ids, privilege, MemberKind,
};
use vstd::prelude::*;
use vstd::string::*;

verus! {

/// The tasks of an installation, in the order in which they are performed.
#[derive(Debug, PartialEq, Eq)]
pub enum InstallTask {
    /// Find out whether the process has elevated privilege.
    CheckPrivilege,
    /// Ask the operator to confirm.
    Confirm,
    /// Audit the device permissions.
    AuditDevices,
    /// Find out whether the access group exists.
    FindGroup,
    /// List the group ids that are in use.
    ListGroupIds,
    /// Create the access group with the id `gid`.
    CreateGroup { gid: u32 },
    /// Nest the administrators' group inside the access group.
    NestAdminGroup,
    /// Find out on whose behalf the process acts.
    ResolveUser,
    /// Make the user called `name` a member of the access group.
    AddUser { name: String },
    /// Create the directory of the helper script.
    CreateScriptDir,
    /// Write the helper script.
    WriteScript,
    /// Hand the script directory to the superuser.
    OwnScriptDir,
    /// Let everybody read the script directory and nobody but the owner
    /// write to it.
    RestrictScriptDir,
    /// Write the daemon's descriptor.
    WriteDescriptor,
    /// Let the owner read and write the descriptor and everybody read it.
    RestrictDescriptor,
    /// Hand the descriptor to the superuser.
    OwnDescriptor,
    /// Take the daemon out of the service manager, in case it is loaded.
    Bootout,
    /// Load the daemon into the service manager.
    Bootstrap,
}

/// An [`InstallTask`] with its texts as sequences of characters.
pub enum InstallTaskView {
    CheckPrivilege,
    Confirm,
    AuditDevices,
    FindGroup,
    ListGroupIds,
    CreateGroup { gid: u32 },
    NestAdminGroup,
    ResolveUser,
    AddUser { name: Seq<char> },
    CreateScriptDir,
    WriteScript,
    OwnScriptDir,
    RestrictScriptDir,
    WriteDescriptor,
    RestrictDescriptor,
    OwnDescriptor,
    Bootout,
    Bootstrap,
}

impl View for InstallTask {
    type V = InstallTaskView;

    open spec fn view(&self) -> InstallTaskView {
        match self {
            InstallTask::CheckPrivilege => InstallTaskView::CheckPrivilege,
            InstallTask::Confirm => InstallTaskView::Confirm,
            InstallTask::AuditDevices => InstallTaskView::AuditDevices,
            InstallTask::FindGroup => InstallTaskView::FindGroup,
            InstallTask::ListGroupIds => InstallTaskView::ListGroupIds,
            InstallTask::CreateGroup { gid } => InstallTaskView::CreateGroup { gid: *gid },
            InstallTask::NestAdminGroup => InstallTaskView::NestAdminGroup,
            InstallTask::ResolveUser => InstallTaskView::ResolveUser,
            InstallTask::AddUser { name } => InstallTaskView::AddUser { name: name@ },
            InstallTask::CreateScriptDir => InstallTaskView::CreateScriptDir,
            InstallTask::WriteScript => InstallTaskView::WriteScript,
            InstallTask::OwnScriptDir => InstallTaskView::OwnScriptDir,
            InstallTask::RestrictScriptDir => InstallTaskView::RestrictScriptDir,
            InstallTask::WriteDescriptor => InstallTaskView::WriteDescriptor,
            InstallTask::RestrictDescriptor => InstallTaskView::RestrictDescriptor,
            InstallTask::OwnDescriptor => InstallTaskView::OwnDescriptor,
            InstallTask::Bootout => InstallTaskView::Bootout,
            InstallTask::Bootstrap => InstallTaskView::Bootstrap,
        }
    }
}

/// The question that the operator is asked before an installation.
pub const INSTALL_PROMPT: &'static str = "Install the chmod-bpf launch daemon?";

/// What performing `task` of an installation takes.
pub open spec fn install_operation(config: ConfigView, task: InstallTaskView) -> OperationView {
    match task {
        InstallTaskView::CheckPrivilege => OperationView::Lookup(Query::EffectiveUid),
        InstallTaskView::Confirm => OperationView::Ask { prompt: INSTALL_PROMPT@ },
        InstallTaskView::AuditDevices => OperationView::Audit,
        InstallTaskView::FindGroup => OperationView::Lookup(Query::GroupExists),
        InstallTaskView::ListGroupIds => OperationView::Capture(group_listing()),
        InstallTaskView::CreateGroup { gid } => OperationView::Run(
            group_creation(config.group, config.group_name, gid),
        ),
        InstallTaskView::NestAdminGroup => OperationView::Run(
            group_edit(config.admin_group, MemberKind::Group, config.group),
        ),
        InstallTaskView::ResolveUser => OperationView::Lookup(Query::RealUser),
        InstallTaskView::AddUser { name } => OperationView::Run(
            group_edit(name, MemberKind::User, config.group),
        ),
        InstallTaskView::CreateScriptDir => OperationView::CreateDir { path: config.script_dir },
        InstallTaskView::WriteScript => OperationView::WriteFile {
            path: config.script_path,
            asset: Asset::Script,
        },
        InstallTaskView::OwnScriptDir => OperationView::Run(
            recursive_owner_change(config.script_dir),
        ),
        InstallTaskView::RestrictScriptDir => OperationView::Run(
            recursive_mode_change(config.script_dir),
        ),
        InstallTaskView::WriteDescriptor => OperationView::WriteFile {
            path: config.plist_path,
            asset: Asset::Descriptor,
        },
        InstallTaskView::RestrictDescriptor => OperationView::Run(mode_change(config.plist_path)),
        InstallTaskView::OwnDescriptor => OperationView::Run(owner_change(config.plist_path)),
        InstallTaskView::Bootout => OperationView::Run(bootout(config.plist_path)),
        InstallTaskView::Bootstrap => OperationView::Run(bootstrap(config.plist_path)),
    }
}

/// Whether a failure of `task` ends the installation. The audit only warns,
/// since the installation creates the access that the audit may find missing;
/// and the daemon is taken out only in case it is loaded.
pub open spec fn install_policy(task: InstallTaskView) -> FailurePolicy {
    match task {
        InstallTaskView::AuditDevices => FailurePolicy::BestEffort,
        InstallTaskView::Bootout => FailurePolicy::BestEffort,
        _ => FailurePolicy::Fatal,
    }
}

/// The words that say which file operation of an installation failed.
pub open spec fn install_context(task: InstallTaskView) -> Seq<char> {
    match task {
        InstallTaskView::CreateScriptDir => "Failed to create script directory"@,
        InstallTaskView::WriteScript => "Failed to write script"@,
        _ => "Failed to write plist"@,
    }
}

/// The failure that `event` means for `task` of an installation, if it means
/// one: no privilege, an audit that failed, group ids that could not be
/// determined, a user who could not be resolved, a command that did not
/// succeed, a file operation that was not done.
pub open spec fn install_failure(
    config: ConfigView,
    task: InstallTaskView,
    event: EventView,
) -> Option<ErrorView> {
    match event {
        EventView::EffectiveUid(uid) => if uid == 0 {
            None
        } else {
            Some(ErrorView::PermissionDenied)
        },
        EventView::Confirmed(_) => None,
        EventView::Audited(result) => match result {
            Ok(_) => None,
            Err(e) => Some(e),
        },
        EventView::GroupFound(_) => None,
        EventView::Listed { outcome, stdout } => match free_gid(config.min_gid, outcome, stdout) {
            Ok(_) => None,
            Err(failure) => Some(ErrorView::ResolutionError(failure)),
        },
        EventView::Ran(outcome) => match install_operation(config, task) {
            OperationView::Run(invocation) => if outcome.succeeded() {
                None
            } else {
                Some(failure(invocation, outcome))
            },
            _ => None,
        },
        EventView::User(name) => match name {
            Some(_) => None,
            None => Some(ErrorView::ResolutionError(ResolutionFailure::UserUnknown)),
        },
        EventView::File(outcome) => match install_operation(config, task) {
            OperationView::CreateDir { path } => if outcome == FileOutcome::Done {
                None
            } else {
                Some(ErrorView::IoError { context: install_context(task), path })
            },
            OperationView::WriteFile { path, .. } => if outcome == FileOutcome::Done {
                None
            } else {
                Some(ErrorView::IoError { context: install_context(task), path })
            },
            _ => None,
        },
    }
}

/// Where an installation stands after `task` gave `event`, failures aside.
/// The group is created only where it does not exist yet, with the first
/// free id; the administrators' group is nested before the user is added;
/// the script is in place before the descriptor; and the daemon is loaded
/// last.
pub open spec fn install_successor(
    config: ConfigView,
    auto_confirm: bool,
    task: InstallTaskView,
    event: EventView,
) -> ProgressView<InstallTaskView> {
    match task {
        InstallTaskView::CheckPrivilege => match gate(auto_confirm, None) {
            Gate::Proceed => ProgressView::Next(InstallTaskView::AuditDevices),
            Gate::Ask => ProgressView::Next(InstallTaskView::Confirm),
            Gate::Declined => ProgressView::Cancelled,
        },
        InstallTaskView::Confirm => match gate(auto_confirm, answer_of(event)) {
            Gate::Proceed => ProgressView::Next(InstallTaskView::AuditDevices),
            Gate::Ask => ProgressView::Next(InstallTaskView::Confirm),
            Gate::Declined => ProgressView::Cancelled,
        },
        InstallTaskView::AuditDevices => ProgressView::Next(InstallTaskView::FindGroup),
        InstallTaskView::FindGroup => if event == EventView::GroupFound(true) {
            ProgressView::Next(InstallTaskView::NestAdminGroup)
        } else {
            ProgressView::Next(InstallTaskView::ListGroupIds)
        },
        InstallTaskView::ListGroupIds => match event {
            EventView::Listed { outcome, stdout } => match free_gid(
                config.min_gid,
                outcome,
                stdout,
            ) {
                Ok(gid) => ProgressView::Next(InstallTaskView::CreateGroup { gid }),
                Err(failure) => ProgressView::Failed(ErrorView::ResolutionError(failure)),
            },
            _ => ProgressView::Failed(
                ErrorView::ResolutionError(ResolutionFailure::ListingNotRun),
            ),
        },
        InstallTaskView::CreateGroup { .. } => ProgressView::Next(InstallTaskView::NestAdminGroup),
        InstallTaskView::NestAdminGroup => ProgressView::Next(InstallTaskView::ResolveUser),
        InstallTaskView::ResolveUser => match event {
            EventView::User(Some(name)) => ProgressView::Next(InstallTaskView::AddUser { name }),
            _ => ProgressView::Failed(
                ErrorView::ResolutionError(ResolutionFailure::UserUnknown),
            ),
        },
        InstallTaskView::AddUser { .. } => ProgressView::Next(InstallTaskView::CreateScriptDir),
        InstallTaskView::CreateScriptDir => ProgressView::Next(InstallTaskView::WriteScript),
        InstallTaskView::WriteScript => ProgressView::Next(InstallTaskView::OwnScriptDir),
        InstallTaskView::OwnScriptDir => ProgressView::Next(InstallTaskView::RestrictScriptDir),
        InstallTaskView::RestrictScriptDir => ProgressView::Next(InstallTaskView::WriteDescriptor),
        InstallTaskView::WriteDescriptor => ProgressView::Next(
            InstallTaskView::RestrictDescriptor,
        ),
        InstallTaskView::RestrictDescriptor => ProgressView::Next(InstallTaskView::OwnDescriptor),
        InstallTaskView::OwnDescriptor => ProgressView::Next(InstallTaskView::Bootout),
        InstallTaskView::Bootout => ProgressView::Next(InstallTaskView::Bootstrap),
        InstallTaskView::Bootstrap => ProgressView::Finished,
    }
}

/// Where an installation stands after `task` gave `event`: a failure of a
/// task that must succeed ends it; anything else leads to the successor.
pub open spec fn install_step(
    config: ConfigView,
    auto_confirm: bool,
    task: InstallTaskView,
    event: EventView,
) -> ProgressView<InstallTaskView> {
    match install_failure(config, task, event) {
        Some(e) => if install_policy(task) == FailurePolicy::Fatal {
            ProgressView::Failed(e)
        } else {
            install_successor(config, auto_confirm, task, event)
        },
        None => install_successor(config, auto_confirm, task, event),
    }
}

impl InstallTask {
    /// Whether a failure of the task ends the installation.
    pub fn policy(&self) -> (policy: FailurePolicy)
        ensures
            policy == install_policy(self@),
    {
        match self {
            InstallTask::AuditDevices => FailurePolicy::BestEffort,
            InstallTask::Bootout => FailurePolicy::BestEffort,
            _ => FailurePolicy::Fatal,
        }
    }

    /// What performing the task takes.
    pub fn operation(&self, config: &Config) -> (operation: Operation)
        ensures
            operation@ == install_operation(config@, self@),
    {
        match self {
            InstallTask::CheckPrivilege => Operation::Lookup(Query::EffectiveUid),
            InstallTask::Confirm => Operation::Ask { prompt: INSTALL_PROMPT.to_owned() },
            InstallTask::AuditDevices => Operation::Audit,
            InstallTask::FindGroup => Operation::Lookup(Query::GroupExists),
            InstallTask::ListGroupIds => Operation::Capture(list_group_ids()),
            InstallTask::CreateGroup { gid } => Operation::Run(
                create_group(config.group.as_str(), config.group_name.as_str(), *gid),
            ),
            InstallTask::NestAdminGroup => Operation::Run(
                add_group_to_group(config.admin_group.as_str(), config.group.as_str()),
            ),
            InstallTask::ResolveUser => Operation::Lookup(Query::RealUser),
            InstallTask::AddUser { name } => Operation::Run(
                add_member(name.as_str(), config.group.as_str(), MemberKind::User),
            ),
            InstallTask::CreateScriptDir => Operation::CreateDir { path: config.script_dir.clone() },
            InstallTask::WriteScript => Operation::WriteFile {
                path: config.script_path.clone(),
                asset: Asset::Script,
            },
            InstallTask::OwnScriptDir => Operation::Run(
                set_owner_group_recursive(config.script_dir.as_str()),
            ),
            InstallTask::RestrictScriptDir => Operation::Run(
                set_read_execute_permissions_recursive(config.script_dir.as_str()),
            ),
            InstallTask::WriteDescriptor => Operation::WriteFile {
                path: config.plist_path.clone(),
                asset: Asset::Descriptor,
            },
            InstallTask::RestrictDescriptor => Operation::Run(
                set_read_write_permissions(config.plist_path.as_str()),
            ),
            InstallTask::OwnDescriptor => Operation::Run(set_owner_group(config.plist_path.as_str())),
            InstallTask::Bootout => Operation::Run(unload_daemon(config.plist_path.as_str())),
            InstallTask::Bootstrap => Operation::Run(load_daemon(config.plist_path.as_str())),
        }
    }

    /// The failure that `event` means for the task, if it means one. Where
    /// the task's policy is `BestEffort` the failure is a warning.
    pub fn failure(&self, config: &Config, event: &Event) -> (problem: Option<Error>)
        ensures
            match problem {
                Some(e) => install_failure(config@, self@, event@) == Some(e@),
                None => install_failure(config@, self@, event@) is None,
            },
    {
        match event {
            Event::EffectiveUid(uid) => match privilege(*uid) {
                Ok(_) => None,
                Err(e) => Some(e),
            },
            Event::Confirmed(_) => None,
            Event::Audited(result) => match result {
                Ok(_) => None,
                Err(e) => Some(e.clone()),
            },
            Event::GroupFound(_) => None,
            Event::Listed(output) => match get_free_gid(config.min_gid, output) {
                Ok(_) => None,
                Err(e) => Some(e),
            },
            Event::Ran(outcome) => match self.operation(config) {
                Operation::Run(invocation) => match run(&invocation, *outcome) {
                    Ok(_) => None,
                    Err(e) => Some(e),
                },
                _ => None,
            },
            Event::User(name) => match name {
                Some(_) => None,
                None => Some(Error::ResolutionError(ResolutionFailure::UserUnknown)),
            },
            Event::File(outcome) => {
                if matches!(outcome, FileOutcome::Done) {
                    return None;
                }
                let context = match self {
                    InstallTask::CreateScriptDir => "Failed to create script directory",
                    InstallTask::WriteScript => "Failed to write script",
                    _ => "Failed to write plist",
                };
                match self.operation(config) {
                    Operation::CreateDir { path } => Some(
                        Error::IoError { context: context.to_owned(), path },
                    ),
                    Operation::WriteFile { path, .. } => Some(
                        Error::IoError { context: context.to_owned(), path },
                    ),
                    _ => None,
                }
            },
        }
    }
}

/// Advances an installation: `task` was performed and gave `event`; the
/// result says what comes next. `auto_confirm` dispenses with the question
/// to the operator. An event that is no answer to the task gives `None`.
pub fn install_daemon(
    config: &Config,
    auto_confirm: bool,
    task: &InstallTask,
    event: &Event,
) -> (progress: Option<Progress<InstallTask>>)
    ensures
        progress is Some <==> answers(install_operation(config@, task@), event@),
        progress matches Some(p) ==> p@ == install_step(config@, auto_confirm, task@, event@),
{
    if !event.answers(&task.operation(config)) {
        return None;
    }
    if matches!(task.policy(), FailurePolicy::Fatal) {
        match task.failure(config, event) {
            Some(e) => {
                return Some(Progress::Failed(e));
            },
            None => {},
        }
    }
    let progress = match task {
        InstallTask::CheckPrivilege => match confirm_or_skip(auto_confirm, None) {
            Gate::Proceed => Progress::Next(InstallTask::AuditDevices),
            Gate::Ask => Progress::Next(InstallTask::Confirm),
            Gate::Declined => Progress::Cancelled,
        },
        InstallTask::Confirm => match confirm_or_skip(auto_confirm, event.answer()) {
            Gate::Proceed => Progress::Next(InstallTask::AuditDevices),
            Gate::Ask => Progress::Next(InstallTask::Confirm),
            Gate::Declined => Progress::Cancelled,
        },
        InstallTask::AuditDevices => Progress::Next(InstallTask::FindGroup),
        InstallTask::FindGroup => match event {
            Event::GroupFound(true) => Progress::Next(InstallTask::NestAdminGroup),
            _ => Progress::Next(InstallTask::ListGroupIds),
        },
        InstallTask::ListGroupIds => match event {
            Event::Listed(output) => match get_free_gid(config.min_gid, output) {
                Ok(gid) => Progress::Next(InstallTask::CreateGroup { gid }),
                Err(e) => Progress::Failed(e),
            },
            _ => Progress::Failed(Error::ResolutionError(ResolutionFailure::ListingNotRun)),
        },
        InstallTask::CreateGroup { .. } => Progress::Next(InstallTask::NestAdminGroup),
        InstallTask::NestAdminGroup => Progress::Next(InstallTask::ResolveUser),
        InstallTask::ResolveUser => match event {
            Event::User(Some(name)) => Progress::Next(InstallTask::AddUser { name: name.clone() }),
            _ => Progress::Failed(Error::ResolutionError(ResolutionFailure::UserUnknown)),
        },
        InstallTask::AddUser { .. } => Progress::Next(InstallTask::CreateScriptDir),
        InstallTask::CreateScriptDir => Progress::Next(InstallTask::WriteScript),
        InstallTask::WriteScript => Progress::Next(InstallTask::OwnScriptDir),
        InstallTask::OwnScriptDir => Progress::Next(InstallTask::RestrictScriptDir),
        InstallTask::RestrictScriptDir => Progress::Next(InstallTask::WriteDescriptor),
        InstallTask::WriteDescriptor => Progress::Next(InstallTask::RestrictDescriptor),
        InstallTask::RestrictDescriptor => Progress::Next(InstallTask::OwnDescriptor),
        InstallTask::OwnDescriptor => Progress::Next(InstallTask::Bootout),
        InstallTask::Bootout => Progress::Next(InstallTask::Bootstrap),
        InstallTask::Bootstrap => Progress::Finished,
    };
    Some(progress)
}

} // verus!
