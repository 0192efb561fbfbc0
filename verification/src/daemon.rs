//! The launch daemon: where its descriptor may lie, and the command lines
//! that register it with the service manager and take it out again.

use crate::command::{failure, run, CommandOutcome, Invocation, InvocationView};
use crate::error::{Error, ErrorView};
use vstd::prelude::*;
use vstd::string::*;

verus! {

/// A place where a descriptor may lie, and whether one lies there.
#[derive(Clone, Debug, PartialEq, Eq)]
pub struct Candidate {
    pub path: String,
    pub present: bool,
}

/// A [`Candidate`] with its path as a sequence of characters.
pub struct CandidateView {
    pub path: Seq<char>,
    pub present: bool,
}

impl View for Candidate {
    type V = CandidateView;

    open spec fn view(&self) -> CandidateView {
        CandidateView { path: self.path@, present: self.present }
    }
}

/// The views of a list of candidates, in order.
pub open spec fn candidate_views(candidates: Seq<Candidate>) -> Seq<CandidateView> {
    candidates.map_values(|c: Candidate| c@)
}

/// The path of the first candidate, in order, at which a descriptor lies.
pub open spec fn known_configuration(candidates: Seq<CandidateView>) -> Option<Seq<char>>
    decreases candidates.len(),
{
    if candidates.len() == 0 {
        None
    } else if candidates[0].present {
        Some(candidates[0].path)
    } else {
        known_configuration(candidates.drop_first())
    }
}

/// The configuration found is that of a candidate at which a descriptor
/// lies and before which none does; none is found exactly where no
/// descriptor lies anywhere.
pub proof fn lemma_known_configuration(candidates: Seq<CandidateView>)
    ensures
        known_configuration(candidates) is None <==> forall|i: int|
            0 <= i < candidates.len() ==> !(#[trigger] candidates[i]).present,
        forall|i: int|
            0 <= i < candidates.len() && (#[trigger] candidates[i]).present && (forall|j: int|
                0 <= j < i ==> !(#[trigger] candidates[j]).present) ==> known_configuration(
                candidates,
            ) == Some(candidates[i].path),
    decreases candidates.len(),
{
    if candidates.len() > 0 {
        let rest = candidates.drop_first();
        lemma_known_configuration(rest);
        if !candidates[0].present {
            assert forall|i: int|
                0 <= i < candidates.len() && (#[trigger] candidates[i]).present && (forall|j: int|
                    0 <= j < i ==> !(#[trigger] candidates[j]).present) implies known_configuration(
                candidates,
            ) == Some(candidates[i].path) by {
                assert(rest[i - 1] == candidates[i]);
            }
            if known_configuration(candidates) is None {
                assert forall|i: int| 0 <= i < candidates.len() implies !(
                #[trigger] candidates[i]).present by {
                    if i > 0 {
                        assert(rest[i - 1] == candidates[i]);
                    }
                }
            }
        }
    }
}

/// Looks for a daemon descriptor at the known places, in order, and gives the
/// path of the first that is there. This serves the audit only: an
/// installation always writes to its own fixed path.
pub fn check_known_daemon_settings(candidates: &Vec<Candidate>) -> (result: Result<String, Error>)
    ensures
        match result {
            Ok(path) => known_configuration(candidate_views(candidates@)) == Some(path@),
            Err(e) => known_configuration(candidate_views(candidates@)) is None && e@
                == ErrorView::NotFound,
        },
{
    let ghost all = candidate_views(candidates@);
    let mut at: usize = 0;
    assert(all.skip(0) =~= all);
    while at < candidates.len()
        invariant
            at <= candidates.len(),
            all == candidate_views(candidates@),
            known_configuration(all) == known_configuration(all.skip(at as int)),
        decreases candidates.len() - at,
    {
        let ghost rest = all.skip(at as int);
        assert(rest.drop_first() =~= all.skip(at + 1));
        if candidates[at].present {
            return Ok(candidates[at].path.clone());
        }
        at += 1;
    }
    Err(Error::NotFound)
}

/// `launchctl bootout system` with the descriptor at `plist_path`.
pub open spec fn bootout(plist_path: Seq<char>) -> InvocationView {
    InvocationView {
        program: "launchctl"@,
        args: seq!["bootout"@, "system"@, plist_path],
        action: "unload the chmod-bpf daemon"@,
    }
}

/// `launchctl bootstrap system` with the descriptor at `plist_path`.
pub open spec fn bootstrap(plist_path: Seq<char>) -> InvocationView {
    InvocationView {
        program: "launchctl"@,
        args: seq!["bootstrap"@, "system"@, plist_path],
        action: "bootstrap the chmod-bpf daemon"@,
    }
}

/// Builds the command that takes the daemon out of the service manager.
pub fn unload_daemon(plist_path: &str) -> (invocation: Invocation)
    ensures
        invocation@ == bootout(plist_path@),
{
    let mut invocation = Invocation::new("launchctl");
    invocation.arg("bootout");
    invocation.arg("system");
    invocation.arg(plist_path);
    invocation.describe("unload the chmod-bpf daemon".to_owned());
    assert(invocation@.args =~= bootout(plist_path@).args);
    invocation
}

/// Builds the command that registers the daemon with the service manager and
/// starts it.
pub fn load_daemon(plist_path: &str) -> (invocation: Invocation)
    ensures
        invocation@ == bootstrap(plist_path@),
{
    let mut invocation = Invocation::new("launchctl");
    invocation.arg("bootstrap");
    invocation.arg("system");
    invocation.arg(plist_path);
    invocation.describe("bootstrap the chmod-bpf daemon".to_owned());
    assert(invocation@.args =~= bootstrap(plist_path@).args);
    invocation
}

/// Builds the two commands that reload the daemon, in the order in which
/// they run: first the one that takes out what may be loaded, then the one
/// that loads the descriptor anew.
pub fn reload_daemon(plist_path: &str) -> (commands: (Invocation, Invocation))
    ensures
        commands.0@ == bootout(plist_path@),
        commands.1@ == bootstrap(plist_path@),
{
    (unload_daemon(plist_path), load_daemon(plist_path))
}

/// The failure that `outcome` means for taking the daemon out, if it means
/// one. The service manager refuses to take out a daemon that it has not
/// loaded and says so by a status other than zero; since the daemon is then
/// not loaded, which is what was wanted, that is no failure. Only a manager
/// that did not start, or did not run to its end, has failed.
pub open spec fn unload_failure(plist_path: Seq<char>, outcome: CommandOutcome) -> Option<
    ErrorView,
> {
    if outcome is Exited {
        None
    } else {
        Some(failure(bootout(plist_path), outcome))
    }
}

/// Judges how taking the daemon out ended: a daemon that was not loaded
/// counts as taken out.
pub fn unloaded(plist_path: &str, outcome: CommandOutcome) -> (result: Result<(), Error>)
    ensures
        match result {
            Ok(_) => unload_failure(plist_path@, outcome) is None,
            Err(e) => unload_failure(plist_path@, outcome) == Some(e@),
        },
{
    match outcome {
        CommandOutcome::Exited(_) => Ok(()),
        _ => run(&unload_daemon(plist_path), outcome),
    }
}

} // verus!
