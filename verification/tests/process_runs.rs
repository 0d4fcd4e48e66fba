//! End-to-end runs against real child processes: the bookkeeping is the
//! library's, the spawning and reaping are the same tokio machinery the
//! host uses.

use std::pin::Pin;

use gnomelab::{Dispatcher, Status, StopOutcome};
use process_wrap::tokio::{CommandWrap, ProcessGroup};

fn runtime() -> tokio::runtime::Runtime {
    tokio::runtime::Builder::new_multi_thread()
        .worker_threads(2)
        .enable_all()
        .build()
        .unwrap()
}

/// A script that exits on its own: its numeric exit code ends up in the
/// snapshot.
#[test]
fn real_child_natural_exit() {
    let rt = runtime();
    rt.block_on(async {
        let mut d = Dispatcher::new();
        let identity = "exit-7.sh";
        let mut cmd = CommandWrap::with_new("sh", |c| {
            c.arg("-c").arg("exit 7");
        });
        cmd.wrap(ProcessGroup::leader());
        let mut child = cmd.spawn().expect("spawn sh");
        let (tx, _rx) = tokio::sync::oneshot::channel::<()>();
        let guard = d.record_spawn_success(identity, tx);
        assert_eq!(d.statuses.get_status(identity), Some(Status::Running));
        let status = Pin::from(child.wait()).await.expect("wait");
        d.finish_natural(guard, status.code());
        assert_eq!(d.statuses.get_status(identity), Some(Status::ExitCode(7)));
        assert_eq!(d.snapshot_statuses(), "{\"exit-7.sh\":\"exit code 7\"}");
        assert_eq!(d.stop(identity), StopOutcome::NotFound);
    });
}

/// A long-running script stopped mid-flight: the cancellation signal
/// arrives, the process group is killed and reaped, and the snapshot
/// reads `Killed...`; a second stop finds nothing.
#[test]
fn real_child_killed_on_stop() {
    let rt = runtime();
    rt.block_on(async {
        let mut d = Dispatcher::new();
        let identity = "/bin/sleep 30";
        let mut cmd = CommandWrap::with_new("sh", |c| {
            c.arg("-c").arg("sleep 30");
        });
        cmd.wrap(ProcessGroup::leader());
        let mut child = cmd.spawn().expect("spawn sh");
        let (tx, rx) = tokio::sync::oneshot::channel::<()>();
        let guard = d.record_spawn_success(identity, tx);
        assert_eq!(d.stop(identity), StopOutcome::Stopped);
        rx.await.expect("the stop's signal reaches the supervision side");
        Pin::from(child.kill()).await.expect("kill group");
        let _ = Pin::from(child.wait()).await;
        d.finish_killed(guard);
        assert_eq!(d.statuses.get_status(identity), Some(Status::Killed));
        assert_eq!(d.snapshot_statuses(), "{\"/bin/sleep 30\":\"Killed...\"}");
        assert_eq!(d.stop(identity), StopOutcome::NotFound);
    });
}
