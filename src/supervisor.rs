//! The connection supervisor: accept an IPC client, dial the TCP peer, hand
//! the pair to a relay of its own, and accept again at once.
//!
//! Policy: a failed accept (the listener could not be bound, or waiting for
//! a client failed) shuts the service down. A failed dial closes the client
//! just accepted and nothing else. How a relay ends is none of the
//! supervisor's business: it holds no state of any connection.
use vstd::prelude::*;
use crate::listener::AcceptError;

verus! {

/// Where the supervisor stands.
#[derive(Clone, Copy, Debug, PartialEq, Eq, Structural)]
pub enum SupervisorPhase {
    /// Waiting for the next IPC client.
    Accepting,
    /// A client was accepted; its TCP peer is being dialed.
    Dialing,
    /// The service has stopped accepting.
    ShutDown(AcceptError),
}

/// What the driver of the supervisor must do next.
#[derive(Clone, Copy, Debug, PartialEq, Eq, Structural)]
pub enum SupervisorAction {
    /// Accept the next IPC client.
    Accept,
    /// Open a TCP connection to the configured remote address.
    Dial,
    /// Start an independent relay, with a buffer of its own, on the pair.
    SpawnRelay,
    /// Close the client just accepted; its peer could not be reached.
    CloseClient,
    /// Stop accepting: the listener failed.
    Shutdown(AcceptError),
}

pub open spec fn phase_action(p: SupervisorPhase) -> SupervisorAction {
    match p {
        SupervisorPhase::Accepting => SupervisorAction::Accept,
        SupervisorPhase::Dialing => SupervisorAction::Dial,
        SupervisorPhase::ShutDown(e) => SupervisorAction::Shutdown(e),
    }
}

/// The phase after an accept cycle ended with `outcome`.
pub open spec fn after_accept(outcome: Result<(), AcceptError>) -> SupervisorPhase {
    match outcome {
        Ok(()) => SupervisorPhase::Dialing,
        Err(e) => SupervisorPhase::ShutDown(e),
    }
}

/// The action right after the peer of an accepted client was dialed.
pub open spec fn dial_action(ok: bool) -> SupervisorAction {
    if ok {
        SupervisorAction::SpawnRelay
    } else {
        SupervisorAction::CloseClient
    }
}

pub struct Supervisor {
    phase: SupervisorPhase,
}

impl Supervisor {
    pub closed spec fn spec_phase(&self) -> SupervisorPhase {
        self.phase
    }

    /// A supervisor about to accept its first client.
    pub fn new() -> (r: Supervisor)
        ensures
            r.spec_phase() == SupervisorPhase::Accepting,
    {
        Supervisor { phase: SupervisorPhase::Accepting }
    }

    pub fn phase(&self) -> (r: SupervisorPhase)
        ensures
            r == self.spec_phase(),
    {
        self.phase
    }

    /// What the driver must do next.
    pub fn next_action(&self) -> (r: SupervisorAction)
        ensures
            r == phase_action(self.spec_phase()),
    {
        match self.phase {
            SupervisorPhase::Accepting => SupervisorAction::Accept,
            SupervisorPhase::Dialing => SupervisorAction::Dial,
            SupervisorPhase::ShutDown(e) => SupervisorAction::Shutdown(e),
        }
    }

    /// Reports how an accept cycle ended: a client leads to dialing its
    /// peer, a listener failure to shutting down.
    pub fn on_accepted(&mut self, outcome: Result<(), AcceptError>) -> (r: SupervisorAction)
        requires
            old(self).spec_phase() == SupervisorPhase::Accepting,
        ensures
            final(self).spec_phase() == after_accept(outcome),
            r == phase_action(final(self).spec_phase()),
    {
        match outcome {
            Ok(()) => {
                self.phase = SupervisorPhase::Dialing;
            },
            Err(e) => {
                self.phase = SupervisorPhase::ShutDown(e);
            },
        }
        self.next_action()
    }

    /// Reports whether dialing the TCP peer succeeded. Either way the next
    /// client is accepted right after the returned action: the new relay is
    /// not waited for, and a failed dial costs only the client it was for.
    pub fn on_dialed(&mut self, ok: bool) -> (r: SupervisorAction)
        requires
            old(self).spec_phase() == SupervisorPhase::Dialing,
        ensures
            final(self).spec_phase() == SupervisorPhase::Accepting,
            r == dial_action(ok),
    {
        self.phase = SupervisorPhase::Accepting;
        if ok {
            SupervisorAction::SpawnRelay
        } else {
            SupervisorAction::CloseClient
        }
    }
}

/// Per-connection faults stay in their connection: once a client is
/// accepted, whether its peer can be dialed or not, the supervisor ends up
/// accepting the next client, and it only ever closes the one client whose
/// dial failed. Relays are not part of its state at all, so how one of
/// them ends cannot reach it.
pub proof fn lemma_connection_faults_contained(dial_ok: bool)
    ensures
        after_accept(Ok(())) == SupervisorPhase::Dialing,
        phase_action(after_accept(Ok(()))) == SupervisorAction::Dial,
        !(dial_action(dial_ok) is Shutdown),
        dial_action(dial_ok) == SupervisorAction::CloseClient <==> !dial_ok,
        phase_action(SupervisorPhase::Accepting) == SupervisorAction::Accept,
{
}

} // verus!
