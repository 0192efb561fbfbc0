//! The audit: whether the user can use the devices, whether they belong to
//! the access group, and whether a daemon is configured.

use crate::bpf::{
    audit, check_all_bpf_device_permissions, identity_view, probe_views, Probe, ProbeView,
};
use crate::config::{Config, ConfigView};
use crate::daemon::{
    candidate_views, check_known_daemon_settings, known_configuration, Candidate, CandidateView,
};
use crate::error::{outcome_view, Error, ErrorView};
use crate::report::{CheckReport, CheckReportView};
use crate::user::{current_user_in_group, get_real_current_user, Identity, IdentityView};
use vstd::prelude::*;
use vstd::string::*;

verus! {

/// The devices that a scan found, as views; `None` where the directory of
/// the devices could not be read.
pub open spec fn scan_view(scan: Option<&Vec<Probe>>) -> Option<Seq<ProbeView>> {
    match scan {
        Some(devices) => Some(probe_views(devices@)),
        None => None,
    }
}

/// The verdict on the device permissions: a directory that could not be read
/// is an I/O failure on it; else the audit of the devices found decides.
pub open spec fn scan_audit(
    config: ConfigView,
    scan: Option<Seq<ProbeView>>,
    identity: Option<IdentityView>,
) -> Result<(), ErrorView> {
    match scan {
        Some(devices) => audit(devices, identity),
        None => Err(
            ErrorView::IoError {
                context: "Failed to scan for BPF devices"@,
                path: config.device_root,
            },
        ),
    }
}

/// The verdict on the daemon: the descriptor found, or `NotFound`.
pub open spec fn daemon_verdict(candidates: Seq<CandidateView>) -> Result<
    Seq<char>,
    ErrorView,
> {
    match known_configuration(candidates) {
        Some(path) => Ok(path),
        None => Err(ErrorView::NotFound),
    }
}

/// Audits the device permissions for `identity`. `scan` holds what looking
/// at each device gave, or `None` where the directory of the devices could
/// not be read.
pub fn audit_devices(
    config: &Config,
    scan: Option<&Vec<Probe>>,
    identity: Option<&Identity>,
) -> (result: Result<(), Error>)
    ensures
        outcome_view(result) == scan_audit(config@, scan_view(scan), identity_view(identity)),
{
    match scan {
        Some(devices) => check_all_bpf_device_permissions(devices, identity),
        None => Err(
            Error::IoError {
                context: "Failed to scan for BPF devices".to_owned(),
                path: config.device_root.clone(),
            },
        ),
    }
}

/// Makes the three checks of an audit and puts their verdicts together.
/// None of them keeps another from being made: a failure is a verdict like
/// any other.
pub fn check_report(
    config: &Config,
    scan: Option<&Vec<Probe>>,
    identity: Option<&Identity>,
    group_member: bool,
    candidates: &Vec<Candidate>,
) -> (report: CheckReport)
    ensures
        report@ == (CheckReportView {
            permission: scan_audit(config@, scan_view(scan), identity_view(identity)),
            group_member,
            daemon: daemon_verdict(candidate_views(candidates@)),
        }),
{
    let permission = audit_devices(config, scan, identity);
    let daemon = check_known_daemon_settings(candidates);
    CheckReport { permission, group_member, daemon }
}

/// Audits the system: whether the user on whose behalf the process acts can
/// read and write every device, whether the user who started the process
/// belongs to the access group, and whether a daemon descriptor lies at one
/// of the known places. The two users are looked up here; what the lookups
/// give decides the first two verdicts as [`check_report`] says.
pub fn check_bpf_devices(
    config: &Config,
    scan: Option<&Vec<Probe>>,
    original_user: Option<&str>,
    candidates: &Vec<Candidate>,
) -> (report: CheckReport)
    ensures
        exists|identity: Option<IdentityView>|
            report@.permission == scan_audit(config@, scan_view(scan), identity),
        report@.daemon == daemon_verdict(candidate_views(candidates@)),
{
    let identity = get_real_current_user(original_user);
    let group_member = current_user_in_group(config.group.as_str());
    check_report(config, scan, identity.as_ref(), group_member, candidates)
}

} // verus!
