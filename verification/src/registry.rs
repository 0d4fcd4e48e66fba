//! The kill registry: one-shot cancellation handles for in-flight runs,
//! keyed by script identity.
//!
//! A handle is the sending half of a `tokio` oneshot channel; the
//! supervision task that owns the run holds the receiving half. Entries
//! are created at spawn time and removed either when the run resolves
//! naturally or when a cancellation is consumed.

use crate::assoc::AssocList;
use vstd::prelude::*;

verus! {

/// The sending half of a `tokio` oneshot channel, used here as a
/// one-shot cancellation handle. Opaque to the verifier; it is created
/// outside and only stored, moved, and consumed here.
#[verifier::external_type_specification]
#[verifier::external_body]
#[verifier::reject_recursive_types(T)]
pub struct ExSender<T>(tokio::sync::oneshot::Sender<T>);

/// Relies on `tokio::sync::oneshot::Sender::send`: consuming the handle
/// signals the receiving half; it returns an error exactly when the
/// receiver has already gone away. Which of the two happens depends on
/// the receiver's state, so nothing more is promised.
#[verifier::external_body]
fn send_kill_signal(tx: tokio::sync::oneshot::Sender<()>) -> (r: bool) {
    tx.send(()).is_ok()
}

/// Outcome of consuming the cancellation handle for an identity.
#[derive(Clone, Copy, Debug, PartialEq, Eq, Structural)]
pub enum FireOutcome {
    /// A handle existed and the cancellation signal was delivered.
    Fired,
    /// A handle existed but its receiving half had already resolved on
    /// its own; the run is already finished.
    SendFailed,
    /// No handle exists: nothing is running under this identity, or the
    /// run already finished and was cleaned up.
    NotFound,
}

/// Map from script identity to the live cancellation handle for its
/// in-flight run; at most one handle per identity.
pub struct KillRegistry {
    senders: AssocList<tokio::sync::oneshot::Sender<()>>,
}

impl KillRegistry {
    pub closed spec fn wf(self) -> bool {
        self.senders.wf()
    }

    /// The registry as the map it represents.
    pub closed spec fn handle_map(self) -> Map<Seq<char>, tokio::sync::oneshot::Sender<()>> {
        self.senders.view_map()
    }

    /// The identities with a live handle.
    pub open spec fn registered(self) -> Set<Seq<char>> {
        self.handle_map().dom()
    }

    pub fn new() -> (r: Self)
        ensures
            r.wf(),
            r.handle_map() =~= Map::<Seq<char>, tokio::sync::oneshot::Sender<()>>::empty(),
    {
        KillRegistry { senders: AssocList::new() }
    }

    /// Unconditionally store `handle`, replacing any existing handle for
    /// the same identity.
    pub fn insert(&mut self, identity: &str, handle: tokio::sync::oneshot::Sender<()>)
        requires
            old(self).wf(),
        ensures
            final(self).wf(),
            final(self).handle_map() =~= old(self).handle_map().insert(identity@, handle),
    {
        self.senders.insert(identity.to_owned(), handle);
    }

    /// Delete the entry for `identity` if present; a no-op otherwise.
    /// The handle, if any, is dropped unconsumed.
    pub fn remove(&mut self, identity: &str)
        requires
            old(self).wf(),
        ensures
            final(self).wf(),
            final(self).handle_map() =~= old(self).handle_map().remove(identity@),
    {
        let _ = self.senders.remove(&identity.to_owned());
    }

    /// Whether a live handle is registered for `identity`.
    pub fn contains(&self, identity: &str) -> (r: bool)
        requires
            self.wf(),
        ensures
            r == self.registered().contains(identity@),
    {
        match self.senders.get(&identity.to_owned()) {
            Some(_) => true,
            None => false,
        }
    }

    /// Remove and consume the handle for `identity`, signaling
    /// cancellation. `NotFound` when no entry exists; `SendFailed` when
    /// the handle existed but its counterpart already resolved — the
    /// caller must treat that as "already finished", not a hard error.
    pub fn fire(&mut self, identity: &str) -> (r: FireOutcome)
        requires
            old(self).wf(),
        ensures
            final(self).wf(),
            final(self).handle_map() =~= old(self).handle_map().remove(identity@),
            r == FireOutcome::NotFound <==> !old(self).registered().contains(identity@),
    {
        match self.senders.remove(&identity.to_owned()) {
            Some(tx) => {
                if send_kill_signal(tx) {
                    FireOutcome::Fired
                } else {
                    FireOutcome::SendFailed
                }
            },
            None => FireOutcome::NotFound,
        }
    }
}

} // verus!
