use chmod_bpf::command::{run, CommandOutcome, Invocation};
use chmod_bpf::error::Error;

fn sample() -> Invocation {
    let mut invocation = Invocation::new("dseditgroup");
    invocation.arg("-o");
    invocation.arg("delete");
    invocation.arg("access_bpf");
    invocation.describe("delete group access_bpf".to_string());
    invocation
}

#[test]
fn invocation_collects_arguments_in_order() {
    let invocation = sample();
    assert_eq!(invocation.program, "dseditgroup");
    assert_eq!(invocation.args, vec!["-o", "delete", "access_bpf"]);
    assert_eq!(invocation.action, "delete group access_bpf");
}

#[test]
fn new_invocation_has_no_arguments() {
    let invocation = Invocation::new("true");
    assert_eq!(invocation.program, "true");
    assert!(invocation.args.is_empty());
    assert_eq!(invocation.action, "");
}

#[test]
fn success_is_exit_code_zero_only() {
    assert!(CommandOutcome::Exited(0).success());
    assert!(!CommandOutcome::Exited(1).success());
    assert!(!CommandOutcome::Exited(-1).success());
    assert!(!CommandOutcome::Signaled.success());
    assert!(!CommandOutcome::NotStarted.success());
}

#[test]
fn run_accepts_exit_code_zero() {
    assert_eq!(run(&sample(), CommandOutcome::Exited(0)), Ok(()));
}

#[test]
fn run_reports_a_non_zero_exit_with_action_and_status() {
    assert_eq!(
        run(&sample(), CommandOutcome::Exited(1)),
        Err(Error::ExternalCommandFailed {
            action: "delete group access_bpf".to_string(),
            status: Some(1),
        })
    );
    assert_eq!(
        run(&sample(), CommandOutcome::Exited(255)),
        Err(Error::ExternalCommandFailed {
            action: "delete group access_bpf".to_string(),
            status: Some(255),
        })
    );
}

#[test]
fn run_reports_a_signal_without_status() {
    assert_eq!(
        run(&sample(), CommandOutcome::Signaled),
        Err(Error::ExternalCommandFailed {
            action: "delete group access_bpf".to_string(),
            status: None,
        })
    );
}

#[test]
fn run_reports_a_program_that_did_not_start_as_io_error() {
    assert_eq!(
        run(&sample(), CommandOutcome::NotStarted),
        Err(Error::IoError {
            context: "Failed to delete group access_bpf".to_string(),
            path: "dseditgroup".to_string(),
        })
    );
}
