//! A model of the system that an installation and a removal act on, and what
//! holds of the two on it: an installation can be repeated, and a removal
//! takes back what an installation did.
//!
//! The model says how the system answers each task when its utilities work
//! as documented: a group can be created once, a daemon can be taken out only
//! while it is loaded and loaded only while it is not, and so on.

use crate::command::CommandOutcome;
use crate::config::ConfigView;
use crate::daemon::{lemma_known_configuration, CandidateView};
use crate::error::{ErrorView, ResolutionFailure};
use crate::handler::daemon_verdict;
use crate::install::{install_step, InstallTaskView};
use crate::operation::{EventView, FileOutcome, ProgressView};
use crate::uninstall::{uninstall_step, UninstallTask};
use crate::user::free_gid;
use vstd::prelude::*;

verus! {

/// The access group as the group database holds it.
pub struct GroupEntry {
    pub gid: u32,
    /// The groups nested inside it.
    pub nested: Set<Seq<char>>,
    /// The users that are its direct members.
    pub users: Set<Seq<char>>,
}

/// The state of the daemon with regard to the service manager.
pub enum DaemonState {
    /// No descriptor lies at the daemon's path, and the daemon is not loaded.
    Absent,
    /// The descriptor lies at its path; the daemon is not loaded.
    Registered,
    /// The daemon is loaded.
    Loaded,
}

/// The parts of a system that an installation and a removal read or change.
pub struct System {
    /// The user id that the process acts under.
    pub effective_uid: u32,
    /// Whether the operator, when asked, confirms.
    pub consent: bool,
    /// The name of the user on whose behalf the process acts, where the user
    /// database knows them.
    pub user: Option<Seq<char>>,
    /// What the permission audit finds.
    pub audit: Result<(), ErrorView>,
    /// What the listing of the group ids prints.
    pub listing: Seq<u8>,
    /// The access group, where it exists.
    pub group: Option<GroupEntry>,
    /// The paths at which a file or a directory lies.
    pub files: Set<Seq<char>>,
    /// The paths that belong to the superuser.
    pub owned: Set<Seq<char>>,
    /// The paths whose permissions were set.
    pub restricted: Set<Seq<char>>,
    /// Whether the daemon is loaded.
    pub loaded: bool,
}

impl System {
    /// The state of the daemon whose descriptor lies at `plist_path`.
    pub open spec fn daemon(self, plist_path: Seq<char>) -> DaemonState {
        if self.loaded {
            DaemonState::Loaded
        } else if self.files.contains(plist_path) {
            DaemonState::Registered
        } else {
            DaemonState::Absent
        }
    }

    /// The system without `dir` and everything below it.
    pub open spec fn without_dir(self, dir: Seq<char>) -> System {
        System {
            files: self.files.filter(|p: Seq<char>| !dir.is_prefix_of(p)),
            owned: self.owned.filter(|p: Seq<char>| !dir.is_prefix_of(p)),
            restricted: self.restricted.filter(|p: Seq<char>| !dir.is_prefix_of(p)),
            ..self
        }
    }

    /// The system without the file at `path`.
    pub open spec fn without_file(self, path: Seq<char>) -> System {
        System {
            files: self.files.remove(path),
            owned: self.owned.remove(path),
            restricted: self.restricted.remove(path),
            ..self
        }
    }

    /// Whether the user on whose behalf the process acts is a direct member
    /// of the access group.
    pub open spec fn user_in_group(self) -> bool {
        self.group matches Some(group) && self.user matches Some(user) && group.users.contains(
            user,
        )
    }

    /// The known places of a descriptor, each with whether one lies there.
    pub open spec fn candidates(self, config: ConfigView) -> Seq<CandidateView> {
        config.known_plists.map_values(
            |path: Seq<char>| CandidateView { path, present: self.files.contains(path) },
        )
    }
}

/// How a command ends that did what it was run for.
pub open spec fn done() -> EventView {
    EventView::Ran(CommandOutcome::Exited(0))
}

/// How a command ends that refused.
pub open spec fn refused() -> EventView {
    EventView::Ran(CommandOutcome::Exited(1))
}

/// Taking the daemon out: only a loaded daemon can be taken out; afterwards
/// it is loaded no more.
pub open spec fn bootout_effect(config: ConfigView, system: System) -> (System, EventView) {
    match system.daemon(config.plist_path) {
        DaemonState::Loaded => (System { loaded: false, ..system }, done()),
        _ => (system, refused()),
    }
}

/// Loading the daemon: only a registered daemon can be loaded.
pub open spec fn bootstrap_effect(config: ConfigView, system: System) -> (System, EventView) {
    match system.daemon(config.plist_path) {
        DaemonState::Registered => (System { loaded: true, ..system }, done()),
        _ => (system, refused()),
    }
}

/// The system after `task` of an installation was performed on it, and the
/// event that this gave.
pub open spec fn install_effect(
    config: ConfigView,
    system: System,
    task: InstallTaskView,
) -> (System, EventView) {
    match task {
        InstallTaskView::CheckPrivilege => (system, EventView::EffectiveUid(system.effective_uid)),
        InstallTaskView::Confirm => (system, EventView::Confirmed(system.consent)),
        InstallTaskView::AuditDevices => (system, EventView::Audited(system.audit)),
        InstallTaskView::FindGroup => (system, EventView::GroupFound(system.group is Some)),
        InstallTaskView::ListGroupIds => (
            system,
            EventView::Listed { outcome: CommandOutcome::Exited(0), stdout: system.listing },
        ),
        InstallTaskView::CreateGroup { gid } => match system.group {
            Some(_) => (system, refused()),
            None => (
                System {
                    group: Some(GroupEntry { gid, nested: Set::empty(), users: Set::empty() }),
                    ..system
                },
                done(),
            ),
        },
        InstallTaskView::NestAdminGroup => match system.group {
            Some(group) => (
                System {
                    group: Some(
                        GroupEntry { nested: group.nested.insert(config.admin_group), ..group },
                    ),
                    ..system
                },
                done(),
            ),
            None => (system, refused()),
        },
        InstallTaskView::ResolveUser => (system, EventView::User(system.user)),
        InstallTaskView::AddUser { name } => match system.group {
            Some(group) => (
                System {
                    group: Some(GroupEntry { users: group.users.insert(name), ..group }),
                    ..system
                },
                done(),
            ),
            None => (system, refused()),
        },
        InstallTaskView::CreateScriptDir => (
            System { files: system.files.insert(config.script_dir), ..system },
            EventView::File(FileOutcome::Done),
        ),
        InstallTaskView::WriteScript => if system.files.contains(config.script_dir) {
            (
                System { files: system.files.insert(config.script_path), ..system },
                EventView::File(FileOutcome::Done),
            )
        } else {
            (system, EventView::File(FileOutcome::Missing))
        },
        InstallTaskView::OwnScriptDir => if system.files.contains(config.script_dir) {
            (
                System {
                    owned: system.owned.insert(config.script_dir).insert(config.script_path),
                    ..system
                },
                done(),
            )
        } else {
            (system, refused())
        },
        InstallTaskView::RestrictScriptDir => if system.files.contains(config.script_dir) {
            (
                System {
                    restricted: system.restricted.insert(config.script_dir).insert(
                        config.script_path,
                    ),
                    ..system
                },
                done(),
            )
        } else {
            (system, refused())
        },
        InstallTaskView::WriteDescriptor => (
            System { files: system.files.insert(config.plist_path), ..system },
            EventView::File(FileOutcome::Done),
        ),
        InstallTaskView::RestrictDescriptor => if system.files.contains(config.plist_path) {
            (System { restricted: system.restricted.insert(config.plist_path), ..system }, done())
        } else {
            (system, refused())
        },
        InstallTaskView::OwnDescriptor => if system.files.contains(config.plist_path) {
            (System { owned: system.owned.insert(config.plist_path), ..system }, done())
        } else {
            (system, refused())
        },
        InstallTaskView::Bootout => bootout_effect(config, system),
        InstallTaskView::Bootstrap => bootstrap_effect(config, system),
    }
}

/// The system after `task` of a removal was performed on it, and the event
/// that this gave.
pub open spec fn uninstall_effect(
    config: ConfigView,
    system: System,
    task: UninstallTask,
) -> (System, EventView) {
    match task {
        UninstallTask::CheckPrivilege => (system, EventView::EffectiveUid(system.effective_uid)),
        UninstallTask::Confirm => (system, EventView::Confirmed(system.consent)),
        UninstallTask::Bootout => bootout_effect(config, system),
        UninstallTask::FindGroup => (system, EventView::GroupFound(system.group is Some)),
        UninstallTask::DeleteGroup => match system.group {
            Some(_) => (System { group: None, ..system }, done()),
            None => (system, refused()),
        },
        UninstallTask::RemoveScriptDir => (
            system.without_dir(config.script_dir),
            if system.files.contains(config.script_dir) {
                EventView::File(FileOutcome::Done)
            } else {
                EventView::File(FileOutcome::Missing)
            },
        ),
        UninstallTask::RemoveDescriptor => (
            system.without_file(config.plist_path),
            if system.files.contains(config.plist_path) {
                EventView::File(FileOutcome::Done)
            } else {
                EventView::File(FileOutcome::Missing)
            },
        ),
    }
}

/// An installation from `task` on, for at most `steps` tasks: the system it
/// leaves and where it stands.
pub open spec fn install_run(
    config: ConfigView,
    auto_confirm: bool,
    system: System,
    task: InstallTaskView,
    steps: nat,
) -> (System, ProgressView<InstallTaskView>)
    decreases steps,
{
    if steps == 0 {
        (system, ProgressView::Next(task))
    } else {
        let (after, event) = install_effect(config, system, task);
        match install_step(config, auto_confirm, task, event) {
            ProgressView::Next(next) => install_run(
                config,
                auto_confirm,
                after,
                next,
                (steps - 1) as nat,
            ),
            ended => (after, ended),
        }
    }
}

/// A removal from `task` on, for at most `steps` tasks: the system it leaves
/// and where it stands.
pub open spec fn uninstall_run(
    config: ConfigView,
    auto_confirm: bool,
    system: System,
    task: UninstallTask,
    steps: nat,
) -> (System, ProgressView<UninstallTask>)
    decreases steps,
{
    if steps == 0 {
        (system, ProgressView::Next(task))
    } else {
        let (after, event) = uninstall_effect(config, system, task);
        match uninstall_step(config, auto_confirm, task, event) {
            ProgressView::Next(next) => uninstall_run(
                config,
                auto_confirm,
                after,
                next,
                (steps - 1) as nat,
            ),
            ended => (after, ended),
        }
    }
}

/// More tasks than an installation or a removal has.
pub open spec fn enough() -> nat {
    32
}

/// A whole installation on `system`.
pub open spec fn install(config: ConfigView, auto_confirm: bool, system: System) -> (
    System,
    ProgressView<InstallTaskView>,
) {
    install_run(config, auto_confirm, system, InstallTaskView::CheckPrivilege, enough())
}

/// A whole removal on `system`.
pub open spec fn uninstall(config: ConfigView, auto_confirm: bool, system: System) -> (
    System,
    ProgressView<UninstallTask>,
) {
    uninstall_run(config, auto_confirm, system, UninstallTask::CheckPrivilege, enough())
}

/// What an installation needs to go through: elevated privilege, the
/// operator's consent unless it is dispensed with, a user to add to the
/// group, and, where the group is yet to be created, a free id for it.
pub open spec fn installable(config: ConfigView, auto_confirm: bool, system: System) -> bool {
    &&& system.effective_uid == 0
    &&& auto_confirm || system.consent
    &&& system.user is Some
    &&& system.group is None ==> free_gid(
        config.min_gid,
        CommandOutcome::Exited(0),
        system.listing,
    ) is Ok
}

/// `system` with the access group: the one it has, or a new, empty one with
/// the first free id.
pub open spec fn with_group(config: ConfigView, system: System) -> System {
    match system.group {
        Some(_) => system,
        None => System {
            group: Some(
                GroupEntry {
                    gid: free_gid(config.min_gid, CommandOutcome::Exited(0), system.listing)->Ok_0,
                    nested: Set::empty(),
                    users: Set::empty(),
                },
            ),
            ..system
        },
    }
}

/// `system` with the administrators' group nested inside the access group
/// and the user among the access group's members.
pub open spec fn with_members(config: ConfigView, system: System) -> System {
    let group = system.group->0;
    System {
        group: Some(
            GroupEntry {
                nested: group.nested.insert(config.admin_group),
                users: group.users.insert(system.user->0),
                ..group
            },
        ),
        ..system
    }
}

/// `system` with the script directory, the script and the descriptor at their
/// paths, belonging to the superuser and with their permissions set.
pub open spec fn with_files(config: ConfigView, system: System) -> System {
    System {
        files: system.files.insert(config.script_dir).insert(config.script_path).insert(
            config.plist_path,
        ),
        owned: system.owned.insert(config.script_dir).insert(config.script_path).insert(
            config.plist_path,
        ),
        restricted: system.restricted.insert(config.script_dir).insert(config.script_path).insert(
            config.plist_path,
        ),
        ..system
    }
}

/// The system that an installation leaves: the group exists, with the
/// administrators' group nested inside it and the user among its members;
/// script and descriptor lie at their paths, belong to the superuser and have
/// their permissions; the daemon is loaded. Nothing else has changed.
pub open spec fn installed(config: ConfigView, system: System) -> System {
    System { loaded: true, ..with_files(config, with_members(config, with_group(config, system))) }
}

/// The system that a removal leaves: the daemon is not loaded, the group is
/// gone, and neither the script directory, nor anything below it, nor the
/// descriptor lies at its path. Nothing else has changed.
pub open spec fn removed(config: ConfigView, system: System) -> System {
    System { loaded: false, group: None, ..system }.without_dir(config.script_dir).without_file(
        config.plist_path,
    )
}

proof fn lemma_install_advances(
    config: ConfigView,
    auto_confirm: bool,
    system: System,
    task: InstallTaskView,
    next: InstallTaskView,
    steps: nat,
)
    requires
        steps > 0,
        install_step(config, auto_confirm, task, install_effect(config, system, task).1)
            == ProgressView::Next(next),
    ensures
        install_run(config, auto_confirm, system, task, steps) == install_run(
            config,
            auto_confirm,
            install_effect(config, system, task).0,
            next,
            (steps - 1) as nat,
        ),
{
}

proof fn lemma_uninstall_advances(
    config: ConfigView,
    auto_confirm: bool,
    system: System,
    task: UninstallTask,
    next: UninstallTask,
    steps: nat,
)
    requires
        steps > 0,
        uninstall_step(config, auto_confirm, task, uninstall_effect(config, system, task).1)
            == ProgressView::Next(next),
    ensures
        uninstall_run(config, auto_confirm, system, task, steps) == uninstall_run(
            config,
            auto_confirm,
            uninstall_effect(config, system, task).0,
            next,
            (steps - 1) as nat,
        ),
{
}

proof fn lemma_install_loads_daemon(
    config: ConfigView,
    auto_confirm: bool,
    system: System,
    steps: nat,
)
    requires
        steps >= 2,
        system.files.contains(config.plist_path),
    ensures
        install_run(config, auto_confirm, system, InstallTaskView::Bootout, steps) == (
            System { loaded: true, ..system },
            ProgressView::<InstallTaskView>::Finished,
        ),
{
    let unloaded = install_effect(config, system, InstallTaskView::Bootout).0;
    lemma_install_advances(
        config,
        auto_confirm,
        system,
        InstallTaskView::Bootout,
        InstallTaskView::Bootstrap,
        steps,
    );
    assert(install_run(
        config,
        auto_confirm,
        unloaded,
        InstallTaskView::Bootstrap,
        (steps - 1) as nat,
    ) == (System { loaded: true, ..system }, ProgressView::<InstallTaskView>::Finished));
}

proof fn lemma_install_places_files(
    config: ConfigView,
    auto_confirm: bool,
    system: System,
    steps: nat,
)
    requires
        steps >= 9,
    ensures
        install_run(config, auto_confirm, system, InstallTaskView::CreateScriptDir, steps) == (
            System { loaded: true, ..with_files(config, system) },
            ProgressView::<InstallTaskView>::Finished,
        ),
{
    let s1 = install_effect(config, system, InstallTaskView::CreateScriptDir).0;
    lemma_install_advances(
        config,
        auto_confirm,
        system,
        InstallTaskView::CreateScriptDir,
        InstallTaskView::WriteScript,
        steps,
    );
    let s2 = install_effect(config, s1, InstallTaskView::WriteScript).0;
    lemma_install_advances(
        config,
        auto_confirm,
        s1,
        InstallTaskView::WriteScript,
        InstallTaskView::OwnScriptDir,
        (steps - 1) as nat,
    );
    let s3 = install_effect(config, s2, InstallTaskView::OwnScriptDir).0;
    lemma_install_advances(
        config,
        auto_confirm,
        s2,
        InstallTaskView::OwnScriptDir,
        InstallTaskView::RestrictScriptDir,
        (steps - 2) as nat,
    );
    let s4 = install_effect(config, s3, InstallTaskView::RestrictScriptDir).0;
    lemma_install_advances(
        config,
        auto_confirm,
        s3,
        InstallTaskView::RestrictScriptDir,
        InstallTaskView::WriteDescriptor,
        (steps - 3) as nat,
    );
    let s5 = install_effect(config, s4, InstallTaskView::WriteDescriptor).0;
    lemma_install_advances(
        config,
        auto_confirm,
        s4,
        InstallTaskView::WriteDescriptor,
        InstallTaskView::RestrictDescriptor,
        (steps - 4) as nat,
    );
    let s6 = install_effect(config, s5, InstallTaskView::RestrictDescriptor).0;
    lemma_install_advances(
        config,
        auto_confirm,
        s5,
        InstallTaskView::RestrictDescriptor,
        InstallTaskView::OwnDescriptor,
        (steps - 5) as nat,
    );
    let s7 = install_effect(config, s6, InstallTaskView::OwnDescriptor).0;
    lemma_install_advances(
        config,
        auto_confirm,
        s6,
        InstallTaskView::OwnDescriptor,
        InstallTaskView::Bootout,
        (steps - 6) as nat,
    );
    lemma_install_loads_daemon(config, auto_confirm, s7, (steps - 7) as nat);
}

proof fn lemma_install_fills_group(
    config: ConfigView,
    auto_confirm: bool,
    system: System,
    steps: nat,
)
    requires
        steps >= 12,
        system.group is Some,
        system.user is Some,
    ensures
        install_run(config, auto_confirm, system, InstallTaskView::NestAdminGroup, steps) == (
            System { loaded: true, ..with_files(config, with_members(config, system)) },
            ProgressView::<InstallTaskView>::Finished,
        ),
{
    let s1 = install_effect(config, system, InstallTaskView::NestAdminGroup).0;
    lemma_install_advances(
        config,
        auto_confirm,
        system,
        InstallTaskView::NestAdminGroup,
        InstallTaskView::ResolveUser,
        steps,
    );
    let name = system.user->0;
    let add = InstallTaskView::AddUser { name };
    lemma_install_advances(
        config,
        auto_confirm,
        s1,
        InstallTaskView::ResolveUser,
        add,
        (steps - 1) as nat,
    );
    let s3 = install_effect(config, s1, add).0;
    lemma_install_advances(
        config,
        auto_confirm,
        s1,
        add,
        InstallTaskView::CreateScriptDir,
        (steps - 2) as nat,
    );
    lemma_install_places_files(config, auto_confirm, s3, (steps - 3) as nat);
}

proof fn lemma_install_finds_group(
    config: ConfigView,
    auto_confirm: bool,
    system: System,
    steps: nat,
)
    requires
        steps >= 15,
        installable(config, auto_confirm, system),
    ensures
        install_run(config, auto_confirm, system, InstallTaskView::FindGroup, steps) == (
            installed(config, system),
            ProgressView::<InstallTaskView>::Finished,
        ),
{
    if system.group is Some {
        lemma_install_advances(
            config,
            auto_confirm,
            system,
            InstallTaskView::FindGroup,
            InstallTaskView::NestAdminGroup,
            steps,
        );
        lemma_install_fills_group(config, auto_confirm, system, (steps - 1) as nat);
    } else {
        lemma_install_advances(
            config,
            auto_confirm,
            system,
            InstallTaskView::FindGroup,
            InstallTaskView::ListGroupIds,
            steps,
        );
        let gid = free_gid(config.min_gid, CommandOutcome::Exited(0), system.listing)->Ok_0;
        let create = InstallTaskView::CreateGroup { gid };
        lemma_install_advances(
            config,
            auto_confirm,
            system,
            InstallTaskView::ListGroupIds,
            create,
            (steps - 1) as nat,
        );
        let s2 = install_effect(config, system, create).0;
        lemma_install_advances(
            config,
            auto_confirm,
            system,
            create,
            InstallTaskView::NestAdminGroup,
            (steps - 2) as nat,
        );
        lemma_install_fills_group(config, auto_confirm, s2, (steps - 3) as nat);
    }
}

/// An installation that has what it needs goes through and leaves the
/// system installed.
pub proof fn lemma_install_succeeds(config: ConfigView, auto_confirm: bool, system: System)
    requires
        installable(config, auto_confirm, system),
    ensures
        install(config, auto_confirm, system) == (
            installed(config, system),
            ProgressView::<InstallTaskView>::Finished,
        ),
{
    if auto_confirm {
        lemma_install_advances(
            config,
            auto_confirm,
            system,
            InstallTaskView::CheckPrivilege,
            InstallTaskView::AuditDevices,
            32,
        );
        lemma_install_advances(
            config,
            auto_confirm,
            system,
            InstallTaskView::AuditDevices,
            InstallTaskView::FindGroup,
            31,
        );
        lemma_install_finds_group(config, auto_confirm, system, 30);
    } else {
        lemma_install_advances(
            config,
            auto_confirm,
            system,
            InstallTaskView::CheckPrivilege,
            InstallTaskView::Confirm,
            32,
        );
        lemma_install_advances(
            config,
            auto_confirm,
            system,
            InstallTaskView::Confirm,
            InstallTaskView::AuditDevices,
            31,
        );
        lemma_install_advances(
            config,
            auto_confirm,
            system,
            InstallTaskView::AuditDevices,
            InstallTaskView::FindGroup,
            30,
        );
        lemma_install_finds_group(config, auto_confirm, system, 29);
    }
}

/// Installing is idempotent: on a system that an installation has just
/// left, with the group, the files and the daemon in place, a second
/// installation goes through as well and leaves the system as it found it.
/// In particular the group keeps its id and the daemon is loaded again.
pub proof fn lemma_install_idempotent(config: ConfigView, auto_confirm: bool, system: System)
    requires
        installable(config, auto_confirm, system),
    ensures
        install(config, auto_confirm, system).1 == ProgressView::<InstallTaskView>::Finished,
        install(config, auto_confirm, install(config, auto_confirm, system).0) == install(
            config,
            auto_confirm,
            system,
        ),
        install(config, auto_confirm, system).0.daemon(config.plist_path) == DaemonState::Loaded,
{
    lemma_install_succeeds(config, auto_confirm, system);
    let first = installed(config, system);
    lemma_install_succeeds(config, auto_confirm, first);
    let second = installed(config, first);
    assert(second.files =~= first.files);
    assert(second.owned =~= first.owned);
    assert(second.restricted =~= first.restricted);
    assert(second.group->0.nested =~= first.group->0.nested);
    assert(second.group->0.users =~= first.group->0.users);
}

/// Whether `task` is one that an installation comes to on `system`: a group
/// is created with the free id only, and the user added is the one on whose
/// behalf the process acts.
pub open spec fn pending(config: ConfigView, system: System, task: InstallTaskView) -> bool {
    match task {
        InstallTaskView::CreateGroup { gid } => system.group is None ==> free_gid(
            config.min_gid,
            CommandOutcome::Exited(0),
            system.listing,
        ) == Ok::<u32, ResolutionFailure>(gid),
        InstallTaskView::AddUser { name } => system.user == Some(name),
        _ => true,
    }
}

proof fn lemma_install_task_is_absorbed(
    config: ConfigView,
    auto_confirm: bool,
    system: System,
    task: InstallTaskView,
)
    requires
        installable(config, auto_confirm, system),
        pending(config, system, task),
    ensures
        ({
            let (after, event) = install_effect(config, system, task);
            &&& installable(config, auto_confirm, after)
            &&& installed(config, after) == installed(config, system)
            &&& install_step(config, auto_confirm, task, event) matches ProgressView::Next(next)
                ==> pending(config, after, next)
        }),
{
    let (after, event) = install_effect(config, system, task);
    let a = installed(config, after);
    let b = installed(config, system);
    assert(a.files =~= b.files);
    assert(a.owned =~= b.owned);
    assert(a.restricted =~= b.restricted);
    assert(a.group->0.nested =~= b.group->0.nested);
    assert(a.group->0.users =~= b.group->0.users);
}

proof fn lemma_install_run_is_absorbed(
    config: ConfigView,
    auto_confirm: bool,
    system: System,
    task: InstallTaskView,
    steps: nat,
)
    requires
        installable(config, auto_confirm, system),
        pending(config, system, task),
    ensures
        ({
            let after = install_run(config, auto_confirm, system, task, steps).0;
            &&& installable(config, auto_confirm, after)
            &&& installed(config, after) == installed(config, system)
        }),
    decreases steps,
{
    if steps > 0 {
        lemma_install_task_is_absorbed(config, auto_confirm, system, task);
        let (after, event) = install_effect(config, system, task);
        match install_step(config, auto_confirm, task, event) {
            ProgressView::Next(next) => {
                lemma_install_run_is_absorbed(
                    config,
                    auto_confirm,
                    after,
                    next,
                    (steps - 1) as nat,
                );
            },
            _ => {},
        }
    }
}

/// An installation that was interrupted is completed by running it again:
/// after however many tasks the first run stopped, a second run goes through
/// and leaves the system as an uninterrupted run would have left it.
pub proof fn lemma_install_recovers(
    config: ConfigView,
    auto_confirm: bool,
    system: System,
    steps: nat,
)
    requires
        installable(config, auto_confirm, system),
    ensures
        ({
            let interrupted = install_run(
                config,
                auto_confirm,
                system,
                InstallTaskView::CheckPrivilege,
                steps,
            ).0;
            install(config, auto_confirm, interrupted) == install(config, auto_confirm, system)
        }),
{
    let interrupted = install_run(
        config,
        auto_confirm,
        system,
        InstallTaskView::CheckPrivilege,
        steps,
    ).0;
    lemma_install_run_is_absorbed(
        config,
        auto_confirm,
        system,
        InstallTaskView::CheckPrivilege,
        steps,
    );
    lemma_install_succeeds(config, auto_confirm, system);
    lemma_install_succeeds(config, auto_confirm, interrupted);
}

/// What a removal needs to go through: elevated privilege, and the
/// operator's consent unless it is dispensed with.
pub open spec fn removable(auto_confirm: bool, system: System) -> bool {
    &&& system.effective_uid == 0
    &&& auto_confirm || system.consent
}

/// A removal that has what it needs goes through, whatever of the
/// installation it finds, and leaves nothing of it.
pub proof fn lemma_uninstall_succeeds(config: ConfigView, auto_confirm: bool, system: System)
    requires
        removable(auto_confirm, system),
    ensures
        uninstall(config, auto_confirm, system) == (
            removed(config, system),
            ProgressView::<UninstallTask>::Finished,
        ),
{
    let start: nat = if auto_confirm {
        31
    } else {
        30
    };
    if auto_confirm {
        lemma_uninstall_advances(
            config,
            auto_confirm,
            system,
            UninstallTask::CheckPrivilege,
            UninstallTask::Bootout,
            32,
        );
    } else {
        lemma_uninstall_advances(
            config,
            auto_confirm,
            system,
            UninstallTask::CheckPrivilege,
            UninstallTask::Confirm,
            32,
        );
        lemma_uninstall_advances(
            config,
            auto_confirm,
            system,
            UninstallTask::Confirm,
            UninstallTask::Bootout,
            31,
        );
    }
    let s1 = uninstall_effect(config, system, UninstallTask::Bootout).0;
    lemma_uninstall_advances(
        config,
        auto_confirm,
        system,
        UninstallTask::Bootout,
        UninstallTask::FindGroup,
        start,
    );
    let s2 = System { group: None, ..s1 };
    if s1.group is Some {
        lemma_uninstall_advances(
            config,
            auto_confirm,
            s1,
            UninstallTask::FindGroup,
            UninstallTask::DeleteGroup,
            (start - 1) as nat,
        );
        lemma_uninstall_advances(
            config,
            auto_confirm,
            s1,
            UninstallTask::DeleteGroup,
            UninstallTask::RemoveScriptDir,
            (start - 2) as nat,
        );
        lemma_uninstall_removes_files(config, auto_confirm, s2, (start - 3) as nat);
    } else {
        lemma_uninstall_advances(
            config,
            auto_confirm,
            s1,
            UninstallTask::FindGroup,
            UninstallTask::RemoveScriptDir,
            (start - 1) as nat,
        );
        lemma_uninstall_removes_files(config, auto_confirm, s2, (start - 2) as nat);
    }
}

/// Removing is idempotent: a second removal goes through as well and
/// leaves the system as it found it.
pub proof fn lemma_uninstall_idempotent(config: ConfigView, auto_confirm: bool, system: System)
    requires
        removable(auto_confirm, system),
    ensures
        uninstall(config, auto_confirm, system).1 == ProgressView::<UninstallTask>::Finished,
        uninstall(config, auto_confirm, uninstall(config, auto_confirm, system).0) == uninstall(
            config,
            auto_confirm,
            system,
        ),
{
    lemma_uninstall_succeeds(config, auto_confirm, system);
    let first = removed(config, system);
    lemma_uninstall_succeeds(config, auto_confirm, first);
    let second = removed(config, first);
    assert(second.files =~= first.files);
    assert(second.owned =~= first.owned);
    assert(second.restricted =~= first.restricted);
}

proof fn lemma_uninstall_removes_files(
    config: ConfigView,
    auto_confirm: bool,
    system: System,
    steps: nat,
)
    requires
        steps >= 2,
    ensures
        uninstall_run(config, auto_confirm, system, UninstallTask::RemoveScriptDir, steps) == (
            system.without_dir(config.script_dir).without_file(config.plist_path),
            ProgressView::<UninstallTask>::Finished,
        ),
{
    lemma_uninstall_advances(
        config,
        auto_confirm,
        system,
        UninstallTask::RemoveScriptDir,
        UninstallTask::RemoveDescriptor,
        steps,
    );
    let s1 = system.without_dir(config.script_dir);
    assert(uninstall_run(
        config,
        auto_confirm,
        s1,
        UninstallTask::RemoveDescriptor,
        (steps - 1) as nat,
    ) == (s1.without_file(config.plist_path), ProgressView::<UninstallTask>::Finished));
}

/// A removal takes back an installation. After the two the group is gone
/// and neither the script directory, nor the script, nor the descriptor lies
/// at its path; so an audit finds that the user does not belong to the group
/// and, where no descriptor lay at another of the known places, that no
/// daemon configuration is found.
pub proof fn lemma_uninstall_takes_back_install(
    config: ConfigView,
    auto_confirm: bool,
    system: System,
)
    requires
        config.well_formed(),
        installable(config, auto_confirm, system),
        forall|i: int|
            0 <= i < config.known_plists.len() && #[trigger] config.known_plists[i]
                != config.plist_path ==> !system.files.contains(config.known_plists[i]),
    ensures
        ({
            let first = install(config, auto_confirm, system).0;
            let (last, progress) = uninstall(config, auto_confirm, first);
            &&& progress == ProgressView::<UninstallTask>::Finished
            &&& last.group is None
            &&& !last.files.contains(config.script_dir)
            &&& !last.files.contains(config.script_path)
            &&& !last.files.contains(config.plist_path)
            &&& last.daemon(config.plist_path) == DaemonState::Absent
            &&& !last.user_in_group()
            &&& daemon_verdict(last.candidates(config)) == Err::<Seq<char>, ErrorView>(
                ErrorView::NotFound,
            )
        }),
{
    lemma_install_succeeds(config, auto_confirm, system);
    let first = installed(config, system);
    lemma_uninstall_succeeds(config, auto_confirm, first);
    lemma_known_configuration(removed(config, first).candidates(config));
}

} // verus!
