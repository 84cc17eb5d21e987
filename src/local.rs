//! Ownership of a locally started mock server: the handle asks the server to
//! shut down exactly once, through an explicit `shutdown` that a scope guard
//! of the caller runs on every exit path.

use vstd::prelude::*;
use std::sync::Arc;
use tokio::sync::oneshot::Sender;

verus! {

/// The sending half of tokio's one-shot channel.
#[verifier::external_type_specification]
#[verifier::external_body]
#[verifier::reject_recursive_types(T)]
pub struct ExSender<T>(tokio::sync::oneshot::Sender<T>);

/// Relies on tokio's `oneshot::Sender::send`: it consumes the sender and hands
/// the value back when the receiver is gone. It does not panic: a sender holds
/// its channel until `send` consumes it.
pub assume_specification<T>[ tokio::sync::oneshot::Sender::<T>::send ](self_: tokio::sync::oneshot::Sender<T>, t: T) -> (r: Result<(), T>)
    ensures
        r is Err ==> r->Err_0 == t,
;

/// What became of a request to shut the server down.
#[derive(Debug, Clone, Copy, PartialEq, Eq, Structural)]
pub enum ShutdownOutcome {
    /// The signal was sent; the receiver had not hung up at that moment.
    Sent,
    /// The signal was sent, but the server side had already gone away.
    ReceiverGone,
    /// The signal had been sent before; nothing was sent this time.
    AlreadyFired,
}

/// A handle on a locally started mock server and its state.
pub struct LocalMockServerAdapter<S> {
    shutdown_sender: Option<Sender<()>>,
    /// Kept so that the server's state lives as long as the handle.
    #[allow(dead_code)]
    local_state: Arc<S>,
    signals_sent: Ghost<nat>,
}

impl<S> LocalMockServerAdapter<S> {
    /// The handle can still send its shutdown signal.
    pub closed spec fn is_armed(&self) -> bool {
        self.shutdown_sender is Some
    }

    /// How many shutdown signals this handle has sent.
    pub closed spec fn signals_sent(&self) -> nat {
        self.signals_sent@
    }

    /// The server state that the handle keeps alive.
    pub closed spec fn state_spec(&self) -> Arc<S> {
        self.local_state
    }

    /// One signal in all, sent or still to send.
    pub open spec fn wf(&self) -> bool {
        self.signals_sent() + (if self.is_armed() { 1nat } else { 0nat }) == 1
    }

    /// Takes ownership of the server's shutdown sender and of its state.
    pub fn new(shutdown_sender: Sender<()>, local_state: Arc<S>) -> (r: LocalMockServerAdapter<S>)
        ensures
            r.wf(),
            r.is_armed(),
            r.signals_sent() == 0,
            r.state_spec() == local_state,
    {
        LocalMockServerAdapter { shutdown_sender: Some(shutdown_sender), local_state, signals_sent: Ghost(0) }
    }

    /// Sends the shutdown signal if it has not been sent yet. Never sends it a
    /// second time, and never fails when the server side is already gone.
    pub fn shutdown(&mut self) -> (r: ShutdownOutcome)
        ensures
            !final(self).is_armed(),
            old(self).wf() ==> final(self).wf(),
            old(self).wf() ==> final(self).signals_sent() == 1,
            old(self).is_armed() ==> final(self).signals_sent() == old(self).signals_sent() + 1,
            !old(self).is_armed() ==> final(self).signals_sent() == old(self).signals_sent(),
            (r == ShutdownOutcome::AlreadyFired) <==> !old(self).is_armed(),
            final(self).state_spec() == old(self).state_spec(),
    {
        let mut sender: Option<Sender<()>> = None;
        core::mem::swap(&mut sender, &mut self.shutdown_sender);
        match sender {
            None => ShutdownOutcome::AlreadyFired,
            Some(s) => {
                self.signals_sent = Ghost(self.signals_sent@ + 1);
                match s.send(()) {
                    Ok(()) => ShutdownOutcome::Sent,
                    Err(()) => ShutdownOutcome::ReceiverGone,
                }
            },
        }
    }
}

/// However often a handle is shut down, it sends at most one shutdown signal; it has sent exactly one once it is no
/// longer armed.
pub proof fn lemma_shutdown_exactly_once<S>(h: LocalMockServerAdapter<S>)
    requires
        h.wf(),
    ensures
        h.signals_sent() <= 1,
        !h.is_armed() ==> h.signals_sent() == 1,
{
}

} // verus!
