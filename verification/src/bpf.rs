//! The permission audit: whether a user can read and write the
//! packet-capture devices.

use crate::error::{outcome_view, Error, ErrorView};
use crate::text::has_prefix;
use crate::user::{Identity, IdentityView};
use vstd::prelude::*;
use vstd::string::*;

verus! {

/// The mode bits that let the owner read and write.
pub const OWNER_READ_WRITE: u32 = 0o600;

/// The mode bits that let the owning group read and write.
pub const GROUP_READ_WRITE: u32 = 0o060;

/// The mode bits that let everybody else read and write.
pub const OTHER_READ_WRITE: u32 = 0o006;

/// A device node with the metadata that decides who may use it.
#[derive(Clone, Debug, PartialEq, Eq)]
pub struct Device {
    pub path: String,
    /// The user id of the owner.
    pub uid: u32,
    /// The id of the owning group.
    pub gid: u32,
    /// The permission bits.
    pub mode: u32,
}

/// A [`Device`] with its path as a sequence of characters.
pub struct DeviceView {
    pub path: Seq<char>,
    pub uid: u32,
    pub gid: u32,
    pub mode: u32,
}

impl View for Device {
    type V = DeviceView;

    open spec fn view(&self) -> DeviceView {
        DeviceView { path: self.path@, uid: self.uid, gid: self.gid, mode: self.mode }
    }
}

/// What looking at one device path gave.
#[derive(Clone, Debug, PartialEq, Eq)]
pub enum Probe {
    /// The metadata was read.
    Found(Device),
    /// The metadata of the node at `path` could not be read.
    Unreadable { path: String },
}

/// A [`Probe`] with its texts as sequences of characters.
pub enum ProbeView {
    Found(DeviceView),
    Unreadable { path: Seq<char> },
}

impl View for Probe {
    type V = ProbeView;

    open spec fn view(&self) -> ProbeView {
        match self {
            Probe::Found(device) => ProbeView::Found(device@),
            Probe::Unreadable { path } => ProbeView::Unreadable { path: path@ },
        }
    }
}

impl ProbeView {
    /// The path that was looked at.
    pub open spec fn path(self) -> Seq<char> {
        match self {
            ProbeView::Found(device) => device.path,
            ProbeView::Unreadable { path } => path,
        }
    }
}

impl Probe {
    /// The path that was looked at.
    pub fn path(&self) -> (path: &String)
        ensures
            path@ == self@.path(),
    {
        match self {
            Probe::Found(device) => &device.path,
            Probe::Unreadable { path } => path,
        }
    }
}

/// The views of a list of probes, in order.
pub open spec fn probe_views(probes: Seq<Probe>) -> Seq<ProbeView> {
    probes.map_values(|p: Probe| p@)
}

/// The view of an identity that may be unknown.
pub open spec fn identity_view(identity: Option<&Identity>) -> Option<IdentityView> {
    match identity {
        Some(identity) => Some(identity@),
        None => None,
    }
}

/// Whether `mode` holds every bit of `bits`.
pub open spec fn grants(mode: u32, bits: u32) -> bool {
    mode & bits == bits
}

/// Whether `identity` can read and write `device`. Exactly one class of
/// permission bits decides: the owner's where the identity is the owner, else
/// the group's where the identity belongs to the owning group, else
/// everybody's. An unknown identity is judged by the bits for everybody.
pub open spec fn can_read_write(device: DeviceView, identity: Option<IdentityView>) -> bool {
    match identity {
        Some(identity) => if identity.uid == device.uid {
            grants(device.mode, OWNER_READ_WRITE)
        } else if identity.has_gid(device.gid) {
            grants(device.mode, GROUP_READ_WRITE)
        } else {
            grants(device.mode, OTHER_READ_WRITE)
        },
        None => grants(device.mode, OTHER_READ_WRITE),
    }
}

/// What the audit concludes of one probe: a device that cannot be looked at
/// is an I/O failure, one that can but grants no access lacks permission.
pub open spec fn verdict(probe: ProbeView, identity: Option<IdentityView>) -> Result<
    bool,
    ErrorView,
> {
    match probe {
        ProbeView::Found(device) => Ok(can_read_write(device, identity)),
        ProbeView::Unreadable { path } => Err(
            ErrorView::IoError { context: "Failed to read metadata"@, path },
        ),
    }
}

/// Whether the audit passes `probe`.
pub open spec fn passes(probe: ProbeView, identity: Option<IdentityView>) -> bool {
    verdict(probe, identity) == Ok::<bool, ErrorView>(true)
}

/// The failure that the audit reports of a probe that it does not pass.
pub open spec fn complaint(probe: ProbeView, identity: Option<IdentityView>) -> ErrorView {
    match verdict(probe, identity) {
        Ok(_) => ErrorView::MissingPermission { path: probe.path() },
        Err(e) => e,
    }
}

/// The audit of the devices in order, stopping at the first that fails.
pub open spec fn audit_each(devices: Seq<ProbeView>, identity: Option<IdentityView>) -> Result<
    (),
    ErrorView,
>
    decreases devices.len(),
{
    if devices.len() == 0 {
        Ok(())
    } else if passes(devices[0], identity) {
        audit_each(devices.drop_first(), identity)
    } else {
        Err(complaint(devices[0], identity))
    }
}

/// The audit of all devices: no device at all is a failure of its own kind,
/// else the first device that fails decides.
pub open spec fn audit(devices: Seq<ProbeView>, identity: Option<IdentityView>) -> Result<
    (),
    ErrorView,
> {
    if devices.len() == 0 {
        Err(ErrorView::NoDevicesFound)
    } else {
        audit_each(devices, identity)
    }
}

/// The owner's bits decide for the owner, whatever the other bits say: an
/// identity whose user id is the device's owner has access exactly when the
/// owner may read and write.
pub proof fn lemma_owner_bits_decide(device: DeviceView, identity: IdentityView)
    requires
        identity.uid == device.uid,
    ensures
        can_read_write(device, Some(identity)) == grants(device.mode, OWNER_READ_WRITE),
{
}

/// The group's bits decide for a member of the owning group who is not the
/// owner.
pub proof fn lemma_group_bits_decide(device: DeviceView, identity: IdentityView)
    requires
        identity.uid != device.uid,
        identity.has_gid(device.gid),
    ensures
        can_read_write(device, Some(identity)) == grants(device.mode, GROUP_READ_WRITE),
{
}

/// Everybody's bits decide for an identity that is neither the owner nor in
/// the owning group: such an identity has access only where those bits grant
/// it, and then it has.
pub proof fn lemma_other_bits_decide(device: DeviceView, identity: IdentityView)
    requires
        identity.uid != device.uid,
        !identity.has_gid(device.gid),
    ensures
        can_read_write(device, Some(identity)) == grants(device.mode, OTHER_READ_WRITE),
{
}

/// A device that grants nothing is open to nobody.
pub proof fn lemma_closed_device(device: DeviceView, identity: Option<IdentityView>)
    requires
        device.mode == 0,
    ensures
        !can_read_write(device, identity),
{
    assert(0u32 & 0o600 == 0) by (bit_vector);
    assert(0u32 & 0o060 == 0) by (bit_vector);
    assert(0u32 & 0o006 == 0) by (bit_vector);
}

proof fn lemma_audit_each(devices: Seq<ProbeView>, identity: Option<IdentityView>)
    ensures
        audit_each(devices, identity) is Ok <==> forall|i: int|
            0 <= i < devices.len() ==> passes(#[trigger] devices[i], identity),
        forall|i: int|
            0 <= i < devices.len() && !passes(#[trigger] devices[i], identity) && (forall|j: int|
                0 <= j < i ==> passes(#[trigger] devices[j], identity)) ==> audit_each(
                devices,
                identity,
            ) == Err::<(), ErrorView>(complaint(devices[i], identity)),
    decreases devices.len(),
{
    if devices.len() > 0 {
        let rest = devices.drop_first();
        lemma_audit_each(rest, identity);
        if passes(devices[0], identity) {
            assert forall|i: int| 0 <= i < devices.len() && !passes(
                #[trigger] devices[i],
                identity,
            ) && (forall|j: int|
                0 <= j < i ==> passes(#[trigger] devices[j], identity)) implies audit_each(
                devices,
                identity,
            ) == Err::<(), ErrorView>(complaint(devices[i], identity)) by {
                assert(rest[i - 1] == devices[i]);
            }
            assert(audit_each(devices, identity) is Ok <==> forall|i: int|
                0 <= i < devices.len() ==> passes(#[trigger] devices[i], identity)) by {
                if audit_each(devices, identity) is Ok {
                    assert forall|i: int| 0 <= i < devices.len() implies passes(
                        #[trigger] devices[i],
                        identity,
                    ) by {
                        if i > 0 {
                            assert(rest[i - 1] == devices[i]);
                        }
                    }
                }
            }
        }
    }
}

/// What the audit reports. With no device it fails with `NoDevicesFound`, and
/// only then. With devices it succeeds exactly when every one passes; else it
/// fails with the complaint about the first device, in order, that does not
/// pass: `MissingPermission` with that device's path where the device grants
/// no access.
pub proof fn lemma_audit_reports_first_failure(
    devices: Seq<ProbeView>,
    identity: Option<IdentityView>,
)
    ensures
        devices.len() == 0 <==> audit(devices, identity) == Err::<(), ErrorView>(
            ErrorView::NoDevicesFound,
        ),
        audit(devices, identity) is Ok <==> devices.len() > 0 && forall|i: int|
            0 <= i < devices.len() ==> passes(#[trigger] devices[i], identity),
        forall|i: int|
            0 <= i < devices.len() && !passes(#[trigger] devices[i], identity) && (forall|j: int|
                0 <= j < i ==> passes(#[trigger] devices[j], identity)) ==> audit(
                devices,
                identity,
            ) == Err::<(), ErrorView>(complaint(devices[i], identity)),
{
    lemma_audit_each(devices, identity);
    if devices.len() > 0 && audit_each(devices, identity) is Err {
        lemma_audit_names_a_device(devices, identity);
    }
}

proof fn lemma_audit_names_a_device(devices: Seq<ProbeView>, identity: Option<IdentityView>)
    requires
        audit_each(devices, identity) is Err,
    ensures
        audit_each(devices, identity) != Err::<(), ErrorView>(ErrorView::NoDevicesFound),
    decreases devices.len(),
{
    if devices.len() > 0 && passes(devices[0], identity) {
        lemma_audit_names_a_device(devices.drop_first(), identity);
    }
}

fn belongs_to(identity: &Identity, gid: u32) -> (found: bool)
    ensures
        found == identity@.has_gid(gid),
{
    let mut at: usize = 0;
    while at < identity.groups.len()
        invariant
            at <= identity.groups.len(),
            forall|i: int| 0 <= i < at ==> (#[trigger] identity@.groups[i]).gid != gid,
        decreases identity.groups.len() - at,
    {
        if identity.groups[at].gid == gid {
            assert(identity@.groups[at as int].gid == gid);
            return true;
        }
        at += 1;
    }
    false
}

/// Whether `identity` has read-write access to `device`.
pub fn has_read_write(device: &Device, identity: Option<&Identity>) -> (allowed: bool)
    ensures
        allowed == can_read_write(device@, identity_view(identity)),
{
    let mode = device.mode;
    match identity {
        Some(identity) => {
            if identity.uid == device.uid {
                mode & OWNER_READ_WRITE == OWNER_READ_WRITE
            } else if belongs_to(identity, device.gid) {
                mode & GROUP_READ_WRITE == GROUP_READ_WRITE
            } else {
                mode & OTHER_READ_WRITE == OTHER_READ_WRITE
            }
        },
        None => mode & OTHER_READ_WRITE == OTHER_READ_WRITE,
    }
}

/// Checks whether the user has read-write access to the device that `probe`
/// looked at. Fails where the device's metadata could not be read.
pub fn check_current_user_read_write_permissions(
    probe: &Probe,
    identity: Option<&Identity>,
) -> (result: Result<bool, Error>)
    ensures
        outcome_view(result) == verdict(probe@, identity_view(identity)),
{
    match probe {
        Probe::Found(device) => Ok(has_read_write(device, identity)),
        Probe::Unreadable { path } => Err(
            Error::IoError { context: "Failed to read metadata".to_owned(), path: path.clone() },
        ),
    }
}

/// Checks that the user has read-write access to every device. Finding no
/// device counts as a failure; else the first device in order that cannot be
/// looked at or grants no access ends the audit and is the one reported.
pub fn check_all_bpf_device_permissions(
    devices: &Vec<Probe>,
    identity: Option<&Identity>,
) -> (result: Result<(), Error>)
    ensures
        outcome_view(result) == audit(probe_views(devices@), identity_view(identity)),
{
    if devices.len() == 0 {
        return Err(Error::NoDevicesFound);
    }
    let ghost all = probe_views(devices@);
    let ghost who = identity_view(identity);
    let mut at: usize = 0;
    assert(all.skip(0) =~= all);
    while at < devices.len()
        invariant
            at <= devices.len(),
            all == probe_views(devices@),
            who == identity_view(identity),
            audit_each(all, who) == audit_each(all.skip(at as int), who),
        decreases devices.len() - at,
    {
        let ghost rest = all.skip(at as int);
        assert(rest.drop_first() =~= all.skip(at + 1));
        match check_current_user_read_write_permissions(&devices[at], identity) {
            Ok(allowed) => {
                if !allowed {
                    return Err(Error::MissingPermission { path: devices[at].path().clone() });
                }
            },
            Err(e) => {
                return Err(e);
            },
        }
        at += 1;
    }
    Ok(())
}

/// Whether a directory entry called `name` is one of the devices, which are
/// those whose names begin with `prefix`.
pub fn is_device_name(name: &str, prefix: &str) -> (yes: bool)
    ensures
        yes == prefix@.is_prefix_of(name@),
{
    has_prefix(name, prefix)
}

/// The paths of the devices among the entries of the directory `root`: of
/// each entry whose name begins with `prefix`, the root, a slash and the name.
pub open spec fn device_paths(
    root: Seq<char>,
    prefix: Seq<char>,
    names: Seq<Seq<char>>,
) -> Seq<Seq<char>>
    decreases names.len(),
{
    if names.len() == 0 {
        Seq::empty()
    } else {
        let before = device_paths(root, prefix, names.drop_last());
        if prefix.is_prefix_of(names.last()) {
            before.push(root + "/"@ + names.last())
        } else {
            before
        }
    }
}

/// Picks the device nodes out of the names found in the directory `root`
/// and gives their paths, in the order of the names.
pub fn collect_bpf_device_paths(root: &str, prefix: &str, names: &Vec<String>) -> (paths: Vec<
    String,
>)
    ensures
        paths.deep_view() == device_paths(root@, prefix@, names.deep_view()),
{
    let mut paths: Vec<String> = Vec::new();
    let mut at: usize = 0;
    while at < names.len()
        invariant
            at <= names.len(),
            paths.deep_view() == device_paths(root@, prefix@, names.deep_view().take(at as int)),
        decreases names.len() - at,
    {
        let ghost seen = names.deep_view().take(at + 1);
        assert(seen.drop_last() =~= names.deep_view().take(at as int));
        if is_device_name(names[at].as_str(), prefix) {
            let mut path = root.to_owned();
            path.append("/");
            path.append(names[at].as_str());
            paths.push(path);
        }
        at += 1;
    }
    assert(names.deep_view().take(at as int) =~= names.deep_view());
    paths
}

} // verus!
