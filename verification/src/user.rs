//! Users and groups: who runs the tool, which groups they belong to, and the
//! command lines that create, fill and delete the access group.

use crate::command::{CommandOutcome, CommandOutput, Invocation, InvocationView};
use crate::error::{Error, ErrorView, ResolutionFailure};
use crate::listing::{first_free_gid, group_ids, least_free, listed_ids};
use crate::text::{decimal, decimal_string, decode};
use vstd::prelude::*;
use vstd::string::*;
use vstd::utf8::{decode_utf8, valid_utf8};

verus! {

/// A group as the system's group database describes it.
#[derive(Clone, Debug, PartialEq, Eq)]
pub struct Group {
    pub gid: u32,
    pub name: String,
}

/// A [`Group`] with its name as a sequence of characters.
pub struct GroupView {
    pub gid: u32,
    pub name: Seq<char>,
}

impl View for Group {
    type V = GroupView;

    open spec fn view(&self) -> GroupView {
        GroupView { gid: self.gid, name: self.name@ }
    }
}

/// An account as the system's user database describes it.
#[derive(Clone, Debug, PartialEq, Eq)]
pub struct Account {
    pub uid: u32,
    pub primary_gid: u32,
    pub name: String,
}

/// The user on whose behalf the tool acts, with the groups they belong to.
#[derive(Clone, Debug, PartialEq, Eq)]
pub struct Identity {
    pub uid: u32,
    pub name: String,
    /// The primary group and the supplementary ones.
    pub groups: Vec<Group>,
}

/// An [`Identity`] with its texts as sequences of characters.
pub struct IdentityView {
    pub uid: u32,
    pub name: Seq<char>,
    pub groups: Seq<GroupView>,
}

impl View for Identity {
    type V = IdentityView;

    open spec fn view(&self) -> IdentityView {
        IdentityView {
            uid: self.uid,
            name: self.name@,
            groups: self.groups@.map_values(|g: Group| g@),
        }
    }
}

impl IdentityView {
    /// Whether one of the groups has the id `gid`.
    pub open spec fn has_gid(self, gid: u32) -> bool {
        exists|i: int| 0 <= i < self.groups.len() && (#[trigger] self.groups[i]).gid == gid
    }

    /// Whether one of the groups is called `name`, letter for letter.
    pub open spec fn in_group(self, name: Seq<char>) -> bool {
        exists|i: int| 0 <= i < self.groups.len() && (#[trigger] self.groups[i]).name == name
    }
}

/// `uzers::get_effective_uid`: the user id that the process acts under.
/// Nothing is claimed of it.
#[verifier::external_body]
pub(crate) fn effective_uid() -> u32 {
    uzers::get_effective_uid()
}

/// `uzers::get_current_username`: the name of the user who started the
/// process, where the user database still knows them. A name that is not
/// UTF-8 comes with replacement characters. Nothing is claimed of it.
#[verifier::external_body]
fn current_username() -> Option<String> {
    uzers::get_current_username().map(|name| name.to_string_lossy().into_owned())
}

/// `uzers::get_user_by_name`: the account called `name`, where the user
/// database has one. A name that is not UTF-8 comes with replacement
/// characters. The one thing claimed is what the function does before it
/// asks the system: a name that holds a NUL character can be no user's, and
/// is answered with `None`.
#[verifier::external_body]
fn user_by_name(name: &str) -> (account: Option<Account>)
    ensures
        name@.contains('\0') ==> account is None,
{
    uzers::get_user_by_name(name).map(
        |user|
            Account {
                uid: user.uid(),
                primary_gid: user.primary_group_id(),
                name: user.name().to_string_lossy().into_owned(),
            },
    )
}

/// `uzers::get_user_groups`: the groups of the user called `name` whose
/// primary group is `primary_gid`, where the system can tell. The call
/// panics on a name that holds a NUL character, so none may be passed.
/// Which groups come back is the system's to say; the one thing claimed is
/// that none of their names holds a NUL character, since a name is read from
/// the system up to the first one.
#[verifier::external_body]
fn user_groups(name: &str, primary_gid: u32) -> (groups: Option<Vec<Group>>)
    requires
        !name@.contains('\0'),
    ensures
        groups matches Some(found) ==> forall|i: int|
            0 <= i < found@.len() ==> !(#[trigger] found@[i]).name@.contains('\0'),
{
    uzers::get_user_groups(name, primary_gid).map(
        |groups|
            groups.iter().map(
                |group| Group { gid: group.gid(), name: group.name().to_string_lossy().into_owned() },
            ).collect(),
    )
}

/// `uzers::get_group_by_name`: the group called `name`, where the group
/// database has one. The one thing claimed is what the function does before
/// it asks the system: a name that holds a NUL character can be no group's,
/// and is answered with `None`.
#[verifier::external_body]
fn group_by_name(name: &str) -> (group: Option<Group>)
    ensures
        name@.contains('\0') ==> group is None,
{
    uzers::get_group_by_name(name).map(
        |group| Group { gid: group.gid(), name: group.name().to_string_lossy().into_owned() },
    )
}

fn holds_nul(s: &str) -> (found: bool)
    ensures
        found == s@.contains('\0'),
{
    let mut found = false;
    for c in it: s.chars()
        invariant
            it.seq() == s@,
            found == it.seq().take(it.index() as int).contains('\0'),
    {
        let ghost before = it.seq().take(it.index() as int);
        assert(it.seq().take(it.index() + 1) =~= before.push(c));
        if c == '\0' {
            found = true;
            assert(before.push(c)[before.len() as int] == '\0');
        }
    }
    assert(s@.take(s@.len() as int) =~= s@);
    found
}

/// Whether a group called `group_name` exists on this system. The group
/// database decides, but for a name that holds a NUL character: no group can
/// be called so, and none is looked for.
pub fn group_exists(group_name: &str) -> (exists: bool)
    ensures
        group_name@.contains('\0') ==> !exists,
{
    group_by_name(group_name).is_some()
}

/// The privilege test: only the superuser, whose id is zero, may go on.
pub fn privilege(effective_uid: u32) -> (result: Result<(), Error>)
    ensures
        result is Ok <==> effective_uid == 0,
        result matches Err(e) ==> e@ == ErrorView::PermissionDenied,
{
    if effective_uid == 0 {
        Ok(())
    } else {
        Err(Error::PermissionDenied)
    }
}

/// Fails with `PermissionDenied` unless the process runs as the superuser.
pub fn require_root() -> (result: Result<(), Error>)
    ensures
        result matches Err(e) ==> e@ == ErrorView::PermissionDenied,
{
    privilege(effective_uid())
}

impl Identity {
    /// The identity of `account` with the groups that a lookup gave. An
    /// account whose groups could not be told has none.
    pub fn new(account: Account, groups: Option<Vec<Group>>) -> (identity: Identity)
        ensures
            identity@ == (IdentityView {
                uid: account.uid,
                name: account.name@,
                groups: match groups {
                    Some(groups) => groups@.map_values(|g: Group| g@),
                    None => Seq::empty(),
                },
            }),
    {
        let groups = match groups {
            Some(groups) => groups,
            None => {
                let none: Vec<Group> = Vec::new();
                assert(none@.map_values(|g: Group| g@) =~= Seq::<GroupView>::empty());
                none
            },
        };
        Identity { uid: account.uid, name: account.name, groups }
    }
}

/// Completes an account to an identity by looking up its groups. Which
/// groups are found is the system's to say; none has a name that holds a NUL
/// character.
pub fn identity_of(account: Account) -> (identity: Identity)
    ensures
        identity.uid == account.uid,
        identity.name@ == account.name@,
        forall|i: int|
            0 <= i < identity@.groups.len() ==> !(#[trigger] identity@.groups[i]).name.contains(
                '\0',
            ),
{
    let groups = if holds_nul(account.name.as_str()) {
        None
    } else {
        user_groups(account.name.as_str(), account.primary_gid)
    };
    Identity::new(account, groups)
}

/// The user on whose behalf the process acts. Where the process was started
/// through an elevation wrapper, `original_user` is the name that the wrapper
/// recorded, and that user is looked up; else the user who started the
/// process is. `None` where the user database knows no such account. The
/// database decides, but for a recorded name that holds a NUL character: no
/// user can be called so, none is looked for, and the user who started the
/// process does not stand in.
pub fn get_real_current_user(original_user: Option<&str>) -> (user: Option<Identity>)
    ensures
        original_user matches Some(name) && name@.contains('\0') ==> user is None,
{
    let account = match original_user {
        Some(name) => user_by_name(name),
        None => match current_username() {
            Some(name) => user_by_name(name.as_str()),
            None => None,
        },
    };
    match account {
        Some(account) => Some(identity_of(account)),
        None => None,
    }
}

/// Whether `identity` belongs to the group called `group_name`. Names are
/// compared letter for letter.
pub fn is_member(identity: &Identity, group_name: &str) -> (member: bool)
    ensures
        member == identity@.in_group(group_name@),
{
    let mut at: usize = 0;
    while at < identity.groups.len()
        invariant
            at <= identity.groups.len(),
            forall|i: int| 0 <= i < at ==> (#[trigger] identity@.groups[i]).name != group_name@,
        decreases identity.groups.len() - at,
    {
        if identity.groups[at].name.as_str().eq(group_name) {
            assert(identity@.groups[at as int].name == group_name@);
            return true;
        }
        at += 1;
    }
    false
}

/// Whether the user who started the process belongs to the group called
/// `group_name`. A user whom the user database does not know belongs to none.
/// The database decides, but for a name that holds a NUL character: no group
/// that the database gives is called so, and the user belongs to none such.
pub fn current_user_in_group(group_name: &str) -> (member: bool)
    ensures
        group_name@.contains('\0') ==> !member,
{
    match current_username() {
        Some(name) => match user_by_name(name.as_str()) {
            Some(account) => {
                let identity = identity_of(account);
                is_member(&identity, group_name)
            },
            None => false,
        },
        None => false,
    }
}

/// The command line that creates the group `group_name`, shown to users as
/// `group_real_name`, with the id `gid`.
pub open spec fn group_creation(
    group_name: Seq<char>,
    group_real_name: Seq<char>,
    gid: u32,
) -> InvocationView {
    InvocationView {
        program: "dseditgroup"@,
        args: seq![
            "-q"@,
            "-o"@,
            "create"@,
            "-i"@,
            decimal(gid as nat),
            "-r"@,
            group_real_name,
            group_name,
        ],
        action: "create group "@ + group_name + " with gid "@ + decimal(gid as nat),
    }
}

/// What is made a member of a group.
#[derive(Clone, Copy, Debug, PartialEq, Eq, Structural)]
pub enum MemberKind {
    /// A user, who becomes a direct member.
    User,
    /// A group, which is nested: its members become members.
    Group,
}

impl MemberKind {
    /// The word by which the directory service knows the kind.
    pub open spec fn word(self) -> Seq<char> {
        match self {
            MemberKind::User => "user"@,
            MemberKind::Group => "group"@,
        }
    }
}

/// The command line that makes `member`, a user or a group as `kind` says, a
/// member of the group `target_group`.
pub open spec fn group_edit(
    member: Seq<char>,
    kind: MemberKind,
    target_group: Seq<char>,
) -> InvocationView {
    InvocationView {
        program: "dseditgroup"@,
        args: seq!["-q"@, "-o"@, "edit"@, "-a"@, member, "-t"@, kind.word(), target_group],
        action: "add "@ + kind.word() + " "@ + member + " to group "@ + target_group,
    }
}

/// The command line that deletes the group `group_name`.
pub open spec fn group_deletion(group_name: Seq<char>) -> InvocationView {
    InvocationView {
        program: "dseditgroup"@,
        args: seq!["-o"@, "delete"@, group_name],
        action: "delete group "@ + group_name,
    }
}

/// The command line that lists every group with its id.
pub open spec fn group_listing() -> InvocationView {
    InvocationView {
        program: "dscl"@,
        args: seq!["."@, "-list"@, "/Groups"@, "PrimaryGroupID"@],
        action: "query dscl for group IDs"@,
    }
}

/// Builds the command that creates a new group with the given name and id.
pub fn create_group(group_name: &str, group_real_name: &str, gid: u32) -> (invocation: Invocation)
    ensures
        invocation@ == group_creation(group_name@, group_real_name@, gid),
{
    let id = decimal_string(gid);
    let mut invocation = Invocation::new("dseditgroup");
    invocation.arg("-q");
    invocation.arg("-o");
    invocation.arg("create");
    invocation.arg("-i");
    invocation.arg(id.as_str());
    invocation.arg("-r");
    invocation.arg(group_real_name);
    invocation.arg(group_name);
    let mut action = "create group ".to_owned();
    action.append(group_name);
    action.append(" with gid ");
    action.append(id.as_str());
    invocation.describe(action);
    assert(invocation@.args =~= group_creation(group_name@, group_real_name@, gid).args);
    invocation
}

/// Builds the command that makes `member`, a user or a group as `kind` says,
/// a member of the group `target_group`.
pub fn add_member(member: &str, target_group: &str, kind: MemberKind) -> (invocation: Invocation)
    ensures
        invocation@ == group_edit(member@, kind, target_group@),
{
    let word = match kind {
        MemberKind::User => "user",
        MemberKind::Group => "group",
    };
    let mut invocation = Invocation::new("dseditgroup");
    invocation.arg("-q");
    invocation.arg("-o");
    invocation.arg("edit");
    invocation.arg("-a");
    invocation.arg(member);
    invocation.arg("-t");
    invocation.arg(word);
    invocation.arg(target_group);
    let mut action = "add ".to_owned();
    action.append(word);
    action.append(" ");
    action.append(member);
    action.append(" to group ");
    action.append(target_group);
    invocation.describe(action);
    assert(invocation@.args =~= group_edit(member@, kind, target_group@).args);
    invocation
}

/// Builds the command that makes the current user a direct member of the
/// group `group_name`. `user` is the current user's name; where it could
/// not be resolved there is nobody to add, which is an error.
pub fn add_current_user_to_group(group_name: &str, user: Option<&str>) -> (result: Result<
    Invocation,
    Error,
>)
    ensures
        match result {
            Ok(invocation) => user matches Some(name) && invocation@ == group_edit(
                name@,
                MemberKind::User,
                group_name@,
            ),
            Err(e) => user is None && e@ == ErrorView::ResolutionError(
                ResolutionFailure::UserUnknown,
            ),
        },
{
    match user {
        Some(name) => Ok(add_member(name, group_name, MemberKind::User)),
        None => Err(Error::ResolutionError(ResolutionFailure::UserUnknown)),
    }
}

/// Builds the command that nests the group `group` inside `target_group`, so
/// that the members of the one are members of the other.
pub fn add_group_to_group(group: &str, target_group: &str) -> (invocation: Invocation)
    ensures
        invocation@ == group_edit(group@, MemberKind::Group, target_group@),
{
    add_member(group, target_group, MemberKind::Group)
}

/// Builds the command that deletes the group `group_name`.
pub fn delete_group(group_name: &str) -> (invocation: Invocation)
    ensures
        invocation@ == group_deletion(group_name@),
{
    let mut invocation = Invocation::new("dseditgroup");
    invocation.arg("-o");
    invocation.arg("delete");
    invocation.arg(group_name);
    let mut action = "delete group ".to_owned();
    action.append(group_name);
    invocation.describe(action);
    assert(invocation@.args =~= group_deletion(group_name@).args);
    invocation
}

/// Builds the command whose output [`get_free_gid`] reads.
pub fn list_group_ids() -> (invocation: Invocation)
    ensures
        invocation@ == group_listing(),
{
    let mut invocation = Invocation::new("dscl");
    invocation.arg(".");
    invocation.arg("-list");
    invocation.arg("/Groups");
    invocation.arg("PrimaryGroupID");
    invocation.describe("query dscl for group IDs".to_owned());
    assert(invocation@.args =~= group_listing().args);
    invocation
}

/// The id for a new group, as the run of the listing command determines it:
/// the least id from `min_gid` upwards that the listing does not hold,
/// provided the command ran, succeeded and printed UTF-8 text.
pub open spec fn free_gid(min_gid: u32, outcome: CommandOutcome, stdout: Seq<u8>) -> Result<
    u32,
    ResolutionFailure,
> {
    if outcome == CommandOutcome::NotStarted {
        Err(ResolutionFailure::ListingNotRun)
    } else if !outcome.succeeded() {
        Err(ResolutionFailure::ListingFailed { status: outcome.status() })
    } else if !valid_utf8(stdout) {
        Err(ResolutionFailure::ListingNotText)
    } else {
        match least_free(listed_ids(decode_utf8(stdout)), min_gid) {
            Some(gid) => Ok(gid),
            None => Err(ResolutionFailure::IdsExhausted),
        }
    }
}

/// Finds the first group id from `min_gid` upwards that is not in use, from
/// what the listing command printed.
pub fn get_free_gid(min_gid: u32, listing: &CommandOutput) -> (result: Result<u32, Error>)
    ensures
        match result {
            Ok(gid) => free_gid(min_gid, listing.outcome, listing.stdout@) == Ok::<
                u32,
                ResolutionFailure,
            >(gid),
            Err(e) => free_gid(min_gid, listing.outcome, listing.stdout@) matches Err(failure)
                && e@ == ErrorView::ResolutionError(failure),
        },
{
    match listing.outcome {
        CommandOutcome::NotStarted => {
            return Err(Error::ResolutionError(ResolutionFailure::ListingNotRun));
        },
        CommandOutcome::Exited(code) => {
            if code != 0 {
                return Err(
                    Error::ResolutionError(ResolutionFailure::ListingFailed { status: Some(code) }),
                );
            }
        },
        CommandOutcome::Signaled => {
            return Err(Error::ResolutionError(ResolutionFailure::ListingFailed { status: None }));
        },
    }
    let text = match decode(&listing.stdout) {
        Some(text) => text,
        None => {
            return Err(Error::ResolutionError(ResolutionFailure::ListingNotText));
        },
    };
    let ids = group_ids(text.as_str());
    match first_free_gid(ids, min_gid) {
        Some(gid) => Ok(gid),
        None => Err(Error::ResolutionError(ResolutionFailure::IdsExhausted)),
    }
}

} // verus!
