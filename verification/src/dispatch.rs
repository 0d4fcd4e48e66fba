//! The dispatcher: the public surface behind the run, stop, and status
//! pages.
//!
//! A run goes through three verified steps, with the asynchronous work in
//! between done by the host:
//!
//! 1. `expand_run_paths` normalizes the request's paths; the host then
//!    probes the advisory lock when `lock_probe_needed` says so.
//! 2. `run_gate` decides, from the probe outcome and the kill registry,
//!    whether to spawn. A script whose identity still has a live
//!    cancellation handle is rejected as already running rather than
//!    spawned a second time, so at most one run per identity is ever in
//!    flight and a fresh handle never silently replaces a live one.
//! 3. After the host spawned the child, `record_spawn_success` books the
//!    run (`running` status, registered handle) and hands back the run's
//!    [`RunGuard`]. The guard is consumed, by value, by exactly one of
//!    `finish_natural`, `finish_killed`, or `abandon_run`, so one run
//!    resolves at most once.
//!
//! `stop` consumes the registered cancellation handle; the supervision
//! task that wakes on it reaps the child and calls `finish_killed`.

use crate::registry::{FireOutcome, KillRegistry};
use crate::status::Status;
use crate::store::AppSingleton;
use vstd::prelude::*;

verus! {

/// Relies on `shellexpand::tilde`: only a leading `~`, alone or followed
/// by a path separator, is replaced by the user's home directory; any
/// other input comes back unchanged. The home directory comes from the
/// environment, so nothing is promised about expanded inputs.
#[verifier::external_body]
pub(crate) fn expand_tilde(path: &str) -> (r: String)
    ensures
        path@.len() == 0 ==> r@ == path@,
        path@.len() > 0 && path@[0] != '~' ==> r@ == path@,
{
    shellexpand::tilde(path).into_owned()
}

/// Payload of the stop endpoint: which script to cancel.
pub struct StopRequest {
    pub script: String,
}

/// A run request's three paths after home-directory expansion.
pub struct RunPaths {
    pub lock: String,
    pub log: String,
    pub script: String,
}

/// Expand any leading home-directory shorthand in the lock, log, and
/// script paths of a run request.
pub fn expand_run_paths(lock: &str, log: &str, script: &str) -> (r: RunPaths)
    ensures
        lock@.len() == 0 ==> r.lock@ == lock@,
        lock@.len() > 0 && lock@[0] != '~' ==> r.lock@ == lock@,
        log@.len() == 0 ==> r.log@ == log@,
        log@.len() > 0 && log@[0] != '~' ==> r.log@ == log@,
        script@.len() == 0 ==> r.script@ == script@,
        script@.len() > 0 && script@[0] != '~' ==> r.script@ == script@,
{
    RunPaths { lock: expand_tilde(lock), log: expand_tilde(log), script: expand_tilde(script) }
}

/// Outcome of the host's advisory-lock probe for a non-empty lock path.
pub enum LockCheck {
    /// No conflicting holder was observed at this instant.
    Acquired,
    /// The lock is currently held by another cooperating process.
    Held,
    /// Invoking the locking mechanism itself failed; the payload is the
    /// I/O error's text.
    CheckError(String),
}

/// What the dispatcher decides to do with a run request.
pub enum RunDecision {
    /// Spawn the script.
    Proceed,
    /// Reject: the script is already running (lock held, or a live
    /// cancellation handle is still registered for it).
    AlreadyRunning,
    /// Reject: the lock check itself failed; the payload is the error's
    /// text.
    LockFailed(String),
}

/// Witness that one spawned run is being supervised. It is handed out
/// once per spawn and consumed, by value, by the function that resolves
/// the run, so each run is resolved at most once.
pub struct RunGuard {
    identity: String,
}

impl RunGuard {
    /// The script identity this run was spawned under.
    pub closed spec fn id(self) -> Seq<char> {
        self.identity@
    }

    pub fn identity(&self) -> (r: &String)
        ensures
            r@ == self.id(),
    {
        &self.identity
    }
}

/// The terminal status for a natural exit: a numeric code when the
/// operating system reported one, else termination by a signal.
pub open spec fn exit_status_of(code: Option<i32>) -> Status {
    match code {
        Some(n) => Status::ExitCode(n),
        None => Status::TerminatedBySignal,
    }
}

/// Result of a stop request, as the dashboard reports it.
#[derive(Clone, Copy, Debug, PartialEq, Eq, Structural)]
pub enum StopOutcome {
    /// A cancellation was consumed — or the run had just finished on its
    /// own, which is folded into success.
    Stopped,
    /// Nothing is running under this identity.
    NotFound,
}

/// The dispatcher's state: the status store and the kill registry. The
/// host creates one of each at startup and shares them, behind its own
/// guard, with every supervision task.
pub struct Dispatcher {
    pub statuses: AppSingleton,
    pub kills: KillRegistry,
}

impl Dispatcher {
    pub open spec fn wf(self) -> bool {
        self.statuses.wf() && self.kills.wf()
    }

    pub fn new() -> (r: Self)
        ensures
            r.wf(),
            r.statuses.status_map() =~= Map::<Seq<char>, Status>::empty(),
            r.statuses.entries() =~= Seq::<(Seq<char>, Status)>::empty(),
            r.kills.handle_map() =~= Map::<
                Seq<char>,
                tokio::sync::oneshot::Sender<()>,
            >::empty(),
    {
        Dispatcher { statuses: AppSingleton::new(), kills: KillRegistry::new() }
    }

    /// An empty lock path means "no locking requested": only a non-empty
    /// path needs the host's advisory-lock probe.
    pub fn lock_probe_needed(lock_path: &str) -> (r: bool)
        ensures
            r == (lock_path@.len() != 0),
    {
        !lock_path.is_empty()
    }

    /// Decide a run request: reject it while a live cancellation handle
    /// is still registered for the script, or while a non-empty lock is
    /// held; report a failed lock check; otherwise have the host spawn.
    /// `probe` is the host's probe outcome and is ignored when the lock
    /// path is empty.
    pub fn run_gate(&self, script: &str, lock_path: &str, probe: LockCheck) -> (d: RunDecision)
        requires
            self.wf(),
        ensures
            match d {
                RunDecision::Proceed => !self.kills.registered().contains(script@) && (
                lock_path@.len() == 0 || probe is Acquired),
                RunDecision::AlreadyRunning => self.kills.registered().contains(script@) || (
                lock_path@.len() != 0 && probe is Held),
                RunDecision::LockFailed(e) => !self.kills.registered().contains(script@)
                    && lock_path@.len() != 0 && (probe matches LockCheck::CheckError(e0) && e
                    == e0),
            },
    {
        if self.kills.contains(script) {
            return RunDecision::AlreadyRunning;
        }
        if lock_path.is_empty() {
            return RunDecision::Proceed;
        }
        match probe {
            LockCheck::Acquired => RunDecision::Proceed,
            LockCheck::Held => RunDecision::AlreadyRunning,
            LockCheck::CheckError(e) => RunDecision::LockFailed(e),
        }
    }

    /// Book a successful spawn: the identity's status becomes `running`
    /// and the run's cancellation handle is registered. Hands back the
    /// guard that the supervision task consumes when the run resolves.
    pub fn record_spawn_success(
        &mut self,
        script: &str,
        handle: tokio::sync::oneshot::Sender<()>,
    ) -> (g: RunGuard)
        requires
            old(self).wf(),
        ensures
            final(self).wf(),
            final(self).statuses.status_map() =~= old(self).statuses.status_map().insert(
                script@,
                Status::Running,
            ),
            final(self).kills.handle_map() =~= old(self).kills.handle_map().insert(
                script@,
                handle,
            ),
            g.id() == script@,
    {
        self.statuses.insert_status(script, Status::Running);
        self.kills.insert(script, handle);
        RunGuard { identity: script.to_owned() }
    }

    /// Resolve a run that ended on its own: record `exit code N` when a
    /// numeric code is available, else `terminated by signal`, and clear
    /// the run's registry entry. Consumes the guard: a run resolves once.
    pub fn finish_natural(&mut self, guard: RunGuard, exit_code: Option<i32>)
        requires
            old(self).wf(),
        ensures
            final(self).wf(),
            final(self).statuses.status_map() =~= old(self).statuses.status_map().insert(
                guard.id(),
                exit_status_of(exit_code),
            ),
            final(self).kills.handle_map() =~= old(self).kills.handle_map().remove(guard.id()),
            exit_status_of(exit_code).spec_is_terminal(),
    {
        let status = match exit_code {
            Some(n) => Status::ExitCode(n),
            None => Status::TerminatedBySignal,
        };
        self.statuses.insert_status(guard.identity.as_str(), status);
        self.kills.remove(guard.identity.as_str());
    }

    /// Resolve a run whose supervision task woke on the cancellation
    /// branch and reaped the killed child: record `Killed...` and clear
    /// the run's registry entry. Consumes the guard: a run resolves once.
    pub fn finish_killed(&mut self, guard: RunGuard)
        requires
            old(self).wf(),
        ensures
            final(self).wf(),
            final(self).statuses.status_map() =~= old(self).statuses.status_map().insert(
                guard.id(),
                Status::Killed,
            ),
            final(self).kills.handle_map() =~= old(self).kills.handle_map().remove(guard.id()),
            Status::Killed.spec_is_terminal(),
    {
        self.statuses.insert_status(guard.identity.as_str(), Status::Killed);
        self.kills.remove(guard.identity.as_str());
    }

    /// Resolve a run whose wait itself failed: only the registry entry is
    /// cleared; no status is written. Consumes the guard.
    pub fn abandon_run(&mut self, guard: RunGuard)
        requires
            old(self).wf(),
        ensures
            final(self).wf(),
            final(self).statuses == old(self).statuses,
            final(self).kills.handle_map() =~= old(self).kills.handle_map().remove(guard.id()),
    {
        self.kills.remove(guard.identity.as_str());
    }

    /// Stop a script: consume and fire its cancellation handle.
    /// `NotFound` exactly when no handle is registered (nothing running,
    /// or already finished); a handle whose counterpart already resolved
    /// counts as a successful stop.
    pub fn stop(&mut self, identity: &str) -> (r: StopOutcome)
        requires
            old(self).wf(),
        ensures
            final(self).wf(),
            final(self).statuses == old(self).statuses,
            final(self).kills.handle_map() =~= old(self).kills.handle_map().remove(identity@),
            r == StopOutcome::NotFound <==> !old(self).kills.registered().contains(identity@),
    {
        match self.kills.fire(identity) {
            FireOutcome::Fired => StopOutcome::Stopped,
            FireOutcome::SendFailed => StopOutcome::Stopped,
            FireOutcome::NotFound => StopOutcome::NotFound,
        }
    }

    /// The full status map, rendered as a flat JSON object.
    pub fn snapshot_statuses(&self) -> (r: String)
        ensures
            r@ == crate::store::snapshot_rep(self.statuses.entries()),
    {
        self.statuses.hashstatus_to_json()
    }
}

/// Law: a stop that found and consumed a handle leaves no handle behind,
/// so a second stop issued right after it finds nothing and returns
/// `NotFound`. `post` is the dispatcher as the first stop's contract
/// leaves it.
pub proof fn lemma_second_stop_not_found(pre: Dispatcher, post: Dispatcher, identity: Seq<char>)
    requires
        post.kills.handle_map() == pre.kills.handle_map().remove(identity),
    ensures
        !post.kills.registered().contains(identity),
{
}

/// Law: resolving a run — on the natural branch (`finish_natural`, which
/// writes `exit_status_of` the reported code) as on the cancellation
/// branch (`finish_killed`, which writes `Killed...`) — records one
/// terminal status for exactly the run's identity: every other identity
/// keeps its previous status, and the resolved identity's status no
/// longer reads `running`. That each run is resolved at most once is
/// carried by the [`RunGuard`], which both functions consume by value.
pub proof fn lemma_finish_writes_one_terminal(
    pre: Dispatcher,
    post: Dispatcher,
    identity: Seq<char>,
    written: Status,
    other: Seq<char>,
)
    requires
        written.spec_is_terminal(),
        post.statuses.status_map() == pre.statuses.status_map().insert(identity, written),
        other != identity,
    ensures
        post.statuses.status_map()[identity].spec_is_terminal(),
        pre.statuses.status_map().dom().contains(other) ==> post.statuses.status_map()[other]
            == pre.statuses.status_map()[other],
        post.statuses.status_map().dom().contains(other) ==> pre.statuses.status_map(
        ).dom().contains(other),
{
}

/// Confirmation for a spawned run.
pub fn run_started_message(script: &str) -> (r: String)
    ensures
        r@ == "Script "@ + script@ + " is running."@,
{
    let mut s = String::from_str("Script ");
    s.append(script);
    s.append(" is running.");
    s
}

/// Message shown in place of job output when the lock is held.
pub fn already_running_message() -> (r: String)
    ensures
        r@ == "This script is already running..."@,
{
    String::from_str("This script is already running...")
}

/// Message shown when invoking the lock check itself failed.
pub fn lock_failure_message(err: &str) -> (r: String)
    ensures
        r@ == "Error acquiring lock: "@ + err@,
{
    let mut s = String::from_str("Error acquiring lock: ");
    s.append(err);
    s
}

/// Message shown when the operating system failed to create the child.
pub fn spawn_failure_message(err: &str) -> (r: String)
    ensures
        r@ == "Failed to run script: "@ + err@,
{
    let mut s = String::from_str("Failed to run script: ");
    s.append(err);
    s
}

} // verus!
