//! The dispatcher's run/stop/snapshot surface, driven the way the host
//! drives it: lock decision, spawn bookkeeping, supervision outcomes.

use gnomelab::{
    already_running_message, lock_failure_message, run_started_message, spawn_failure_message,
    wrap_paragraph, Dispatcher, LockCheck, RunDecision, Status, StopOutcome,
};

fn kill_channel() -> (
    tokio::sync::oneshot::Sender<()>,
    tokio::sync::oneshot::Receiver<()>,
) {
    tokio::sync::oneshot::channel()
}

/// A sleep run with no lock: spawning is allowed, and after the natural
/// exit the snapshot shows the exit code.
#[test]
fn run_then_natural_exit() {
    let mut d = Dispatcher::new();
    let script = "/bin/sleep 2";
    let decision = d.run_gate(script, "", LockCheck::Acquired);
    assert!(matches!(decision, RunDecision::Proceed));
    let (tx, _rx) = kill_channel();
    let guard = d.record_spawn_success(script, tx);
    assert_eq!(run_started_message(script), "Script /bin/sleep 2 is running.");
    assert_eq!(d.statuses.get_status(script), Some(Status::Running));
    d.finish_natural(guard, Some(0));
    assert_eq!(d.statuses.get_status(script), Some(Status::ExitCode(0)));
    assert_eq!(d.snapshot_statuses(), "{\"/bin/sleep 2\":\"exit code 0\"}");
    assert_eq!(d.stop(script), StopOutcome::NotFound);
}

/// A long run stopped while in flight: the stop consumes the handle and
/// wakes the receiver, the kill branch records `Killed...`, and a second
/// stop finds nothing.
#[test]
fn run_then_stop_then_stop_again() {
    let mut d = Dispatcher::new();
    let script = "/bin/sleep 30";
    let decision = d.run_gate(script, "", LockCheck::Acquired);
    assert!(matches!(decision, RunDecision::Proceed));
    let (tx, mut rx) = kill_channel();
    let guard = d.record_spawn_success(script, tx);
    assert_eq!(d.stop(script), StopOutcome::Stopped);
    assert_eq!(rx.try_recv(), Ok(()));
    d.finish_killed(guard);
    assert_eq!(d.statuses.get_status(script), Some(Status::Killed));
    assert_eq!(d.snapshot_statuses(), "{\"/bin/sleep 30\":\"Killed...\"}");
    assert_eq!(d.stop(script), StopOutcome::NotFound);
}

/// A stop that races a natural exit: the receiving half is already gone,
/// and the stop is still reported as success, not an error.
#[test]
fn stop_after_receiver_resolved_counts_as_stopped() {
    let mut d = Dispatcher::new();
    let (tx, rx) = kill_channel();
    let guard = d.record_spawn_success("job.sh", tx);
    drop(rx);
    assert_eq!(d.stop("job.sh"), StopOutcome::Stopped);
    d.finish_killed(guard);
    assert_eq!(d.statuses.get_status("job.sh"), Some(Status::Killed));
}

/// A held lock rejects the run without touching the registry or the
/// status store.
#[test]
fn held_lock_rejects_without_bookkeeping() {
    let mut d = Dispatcher::new();
    let script = "/opt/jobs/backup.sh";
    let decision = d.run_gate(script, "/tmp/backup.lock", LockCheck::Held);
    assert!(matches!(decision, RunDecision::AlreadyRunning));
    assert_eq!(already_running_message(), "This script is already running...");
    assert_eq!(d.statuses.get_status(script), None);
    assert!(!d.kills.contains(script));
    assert_eq!(d.stop(script), StopOutcome::NotFound);
    assert_eq!(d.snapshot_statuses(), "{}");
}

/// Two back-to-back runs of the same script under the same lock: the
/// second is rejected as already running while the first is in flight.
#[test]
fn second_run_same_script_rejected() {
    let mut d = Dispatcher::new();
    let script = "/opt/jobs/etl.sh";
    let lock = "/tmp/etl.lock";
    let first = d.run_gate(script, lock, LockCheck::Acquired);
    assert!(matches!(first, RunDecision::Proceed));
    let (tx, _rx) = kill_channel();
    let guard = d.record_spawn_success(script, tx);
    let second = d.run_gate(script, lock, LockCheck::Held);
    assert!(matches!(second, RunDecision::AlreadyRunning));
    // Even a run whose lock probe slipped through is rejected while the
    // first run's handle is still registered.
    let racing = d.run_gate(script, lock, LockCheck::Acquired);
    assert!(matches!(racing, RunDecision::AlreadyRunning));
    d.finish_natural(guard, Some(1));
    let after = d.run_gate(script, lock, LockCheck::Acquired);
    assert!(matches!(after, RunDecision::Proceed));
}

/// An empty lock path never asks the probe and always proceeds.
#[test]
fn empty_lock_path_needs_no_probe() {
    let d = Dispatcher::new();
    assert!(!Dispatcher::lock_probe_needed(""));
    assert!(Dispatcher::lock_probe_needed("/tmp/a.lock"));
    let decision = d.run_gate("x.sh", "", LockCheck::Held);
    assert!(matches!(decision, RunDecision::Proceed));
}

/// A failed lock check is reported as a lock failure, with the error's
/// text.
#[test]
fn lock_check_error_reported() {
    let d = Dispatcher::new();
    let decision = d.run_gate(
        "x.sh",
        "/tmp/x.lock",
        LockCheck::CheckError(String::from("No such file or directory")),
    );
    match decision {
        RunDecision::LockFailed(e) => {
            assert_eq!(e, "No such file or directory");
            assert_eq!(
                lock_failure_message(&e),
                "Error acquiring lock: No such file or directory"
            );
        }
        _ => panic!("expected a lock failure"),
    }
}

/// A failed spawn leaves no bookkeeping; the failure message carries the
/// error's text.
#[test]
fn spawn_failure_message_text() {
    assert_eq!(
        spawn_failure_message("Exec format error"),
        "Failed to run script: Exec format error"
    );
}

/// A wait that itself failed clears the registry but writes no status,
/// leaving the last-known `running` in place.
#[test]
fn abandoned_run_keeps_running_status() {
    let mut d = Dispatcher::new();
    let (tx, _rx) = kill_channel();
    let guard = d.record_spawn_success("w.sh", tx);
    d.abandon_run(guard);
    assert_eq!(d.statuses.get_status("w.sh"), Some(Status::Running));
    assert_eq!(d.stop("w.sh"), StopOutcome::NotFound);
}

/// Natural exits without a numeric code read as signal terminations.
#[test]
fn signal_termination_recorded() {
    let mut d = Dispatcher::new();
    let (tx, _rx) = kill_channel();
    let guard = d.record_spawn_success("s.sh", tx);
    d.finish_natural(guard, None);
    assert_eq!(
        d.statuses.get_status("s.sh"),
        Some(Status::TerminatedBySignal)
    );
    assert_eq!(d.snapshot_statuses(), "{\"s.sh\":\"terminated by signal\"}");
}

/// The page handlers wrap every dispatcher message in one paragraph.
#[test]
fn paragraph_wrapping() {
    assert_eq!(
        wrap_paragraph("Script x is running."),
        "<p>Script x is running.</p>"
    );
}
