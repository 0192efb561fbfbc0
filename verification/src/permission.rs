//! The permissions that the installed files and the devices must have, and
//! the command lines that set them.

use crate::bpf::{grants, GROUP_READ_WRITE};
use crate::command::{Invocation, InvocationView};
use vstd::prelude::*;
use vstd::string::*;

verus! {

/// What a path is there for; its required permissions follow from it.
#[derive(Clone, Copy, Debug, PartialEq, Eq, Structural)]
pub enum Role {
    /// A packet-capture device node.
    Device,
    /// The helper script.
    Script,
    /// The daemon's descriptor.
    Descriptor,
}

/// The permission bits that a path must at least have, one set of
/// read (4), write (2) and execute (1) for each class of users.
#[derive(Clone, Copy, Debug, PartialEq, Eq, Structural)]
pub struct PermissionRequirement {
    pub owner: u8,
    pub group: u8,
    pub other: u8,
}

impl PermissionRequirement {
    /// Each class holds nothing but read, write and execute.
    pub open spec fn well_formed(self) -> bool {
        self.owner <= 7 && self.group <= 7 && self.other <= 7
    }

    /// The requirement for a path of the given role: a device must be
    /// readable and writable by its group; a script or a descriptor must be
    /// readable and writable by its owner and readable by everybody.
    pub open spec fn of(role: Role) -> PermissionRequirement {
        match role {
            Role::Device => PermissionRequirement { owner: 0, group: 6, other: 0 },
            Role::Script => PermissionRequirement { owner: 6, group: 4, other: 4 },
            Role::Descriptor => PermissionRequirement { owner: 6, group: 4, other: 4 },
        }
    }

    /// The three sets as mode bits.
    pub open spec fn bits(self) -> u32 {
        (self.owner * 64 + self.group * 8 + self.other) as u32
    }

    /// The requirement for a path of the given role.
    pub fn for_role(role: Role) -> (requirement: PermissionRequirement)
        ensures
            requirement == Self::of(role),
            requirement.well_formed(),
    {
        match role {
            Role::Device => PermissionRequirement { owner: 0, group: 6, other: 0 },
            Role::Script => PermissionRequirement { owner: 6, group: 4, other: 4 },
            Role::Descriptor => PermissionRequirement { owner: 6, group: 4, other: 4 },
        }
    }

    /// Whether a path with the permission bits `mode` meets the requirement.
    pub fn met_by(&self, mode: u32) -> (met: bool)
        ensures
            met == grants(mode, self.bits()),
    {
        let bits = self.owner as u32 * 64 + self.group as u32 * 8 + self.other as u32;
        mode & bits == bits
    }
}

/// A device that meets its requirement is readable and writable by its group.
pub proof fn lemma_device_requirement(mode: u32)
    ensures
        grants(mode, PermissionRequirement::of(Role::Device).bits()) == grants(
            mode,
            GROUP_READ_WRITE,
        ),
{
}

/// `chmod u=rw,g=r,o=r` on `path`.
pub open spec fn mode_change(path: Seq<char>) -> InvocationView {
    InvocationView {
        program: "chmod"@,
        args: seq!["u=rw,g=r,o=r"@, path],
        action: "set read/write permissions for "@ + path,
    }
}

/// `chown root:wheel` on `path`.
pub open spec fn owner_change(path: Seq<char>) -> InvocationView {
    InvocationView {
        program: "chown"@,
        args: seq!["root:wheel"@, path],
        action: "set owner and group for "@ + path,
    }
}

/// `chmod -R a+rX,go-w` on `path`.
pub open spec fn recursive_mode_change(path: Seq<char>) -> InvocationView {
    InvocationView {
        program: "chmod"@,
        args: seq!["-R"@, "a+rX,go-w"@, path],
        action: "set recursive read/execute permissions for "@ + path,
    }
}

/// `chown -R root:wheel` on `path`.
pub open spec fn recursive_owner_change(path: Seq<char>) -> InvocationView {
    InvocationView {
        program: "chown"@,
        args: seq!["-R"@, "root:wheel"@, path],
        action: "set recursive owner and group for "@ + path,
    }
}

/// Builds the command that lets the owner read and write `path` and
/// everybody else read it.
pub fn set_read_write_permissions(path: &str) -> (invocation: Invocation)
    ensures
        invocation@ == mode_change(path@),
{
    let mut invocation = Invocation::new("chmod");
    invocation.arg("u=rw,g=r,o=r");
    invocation.arg(path);
    let mut action = "set read/write permissions for ".to_owned();
    action.append(path);
    invocation.describe(action);
    assert(invocation@.args =~= mode_change(path@).args);
    invocation
}

/// Builds the command that hands `path` to the superuser and the group
/// `wheel`.
pub fn set_owner_group(path: &str) -> (invocation: Invocation)
    ensures
        invocation@ == owner_change(path@),
{
    let mut invocation = Invocation::new("chown");
    invocation.arg("root:wheel");
    invocation.arg(path);
    let mut action = "set owner and group for ".to_owned();
    action.append(path);
    invocation.describe(action);
    assert(invocation@.args =~= owner_change(path@).args);
    invocation
}

/// Builds the command that, for `path` and everything below it, lets
/// everybody read and enter and takes the right to write from all but the
/// owner.
pub fn set_read_execute_permissions_recursive(path: &str) -> (invocation: Invocation)
    ensures
        invocation@ == recursive_mode_change(path@),
{
    let mut invocation = Invocation::new("chmod");
    invocation.arg("-R");
    invocation.arg("a+rX,go-w");
    invocation.arg(path);
    let mut action = "set recursive read/execute permissions for ".to_owned();
    action.append(path);
    invocation.describe(action);
    assert(invocation@.args =~= recursive_mode_change(path@).args);
    invocation
}

/// Builds the command that hands `path` and everything below it to the
/// superuser and the group `wheel`.
pub fn set_owner_group_recursive(path: &str) -> (invocation: Invocation)
    ensures
        invocation@ == recursive_owner_change(path@),
{
    let mut invocation = Invocation::new("chown");
    invocation.arg("-R");
    invocation.arg("root:wheel");
    invocation.arg(path);
    let mut action = "set recursive owner and group for ".to_owned();
    action.append(path);
    invocation.describe(action);
    assert(invocation@.args =~= recursive_owner_change(path@).args);
    invocation
}

} // verus!
