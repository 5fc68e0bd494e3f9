//! The dial-side redial loop.
//!
//! The far side of the tunnel repeatedly dials outward: connect to the
//! relay, authenticate it against the pinned reference in the client role,
//! then hand the authenticated stream — together with a fresh connection
//! to the true destination — to an independent relay session, and
//! immediately dial the next tunneled connection without waiting.
//!
//! Failure tiers: a failure of the outbound connect to the relay, or of
//! the handshake with it, is fatal to the whole process — it is never
//! retried and never backed off.  Everything after the hand-off, the
//! destination connect included, is local to that one session and never
//! touches the loop.
//!
//! The surrounding loop reports what its I/O produced as a [`RedialEvent`]
//! and performs the returned [`RedialAction`]; whenever the loop stands in
//! [`RedialPhase::ConnectingRelay`] its next piece of work is the outbound
//! connect itself.

use vstd::prelude::*;

verus! {

/// Where the redial loop stands.
#[derive(Clone, Copy, Debug, PartialEq, Eq, Structural)]
pub enum RedialPhase {
    /// The outbound connection to the relay is being opened.
    ConnectingRelay,
    /// The client-role handshake with the relay is in flight.
    HandshakingRelay,
    /// A relay connect or handshake failed; the process is exiting.
    Terminated,
}

/// What the dialing loop observed.
#[derive(Clone, Copy, Debug, PartialEq, Eq, Structural)]
pub enum RedialEvent {
    /// The outbound connection to the relay is open.
    RelayConnected,
    /// The outbound connection to the relay could not be opened.
    RelayConnectFailed,
    /// The handshake succeeded: the relay presented the pinned reference.
    HandshakeAccepted,
    /// The handshake failed: pin mismatch or I/O error.
    HandshakeRejected,
    /// A previously spawned session finished; `true` means without error.
    SessionFinished(bool),
}

/// What the dialing loop must do next.
#[derive(Clone, Copy, Debug, PartialEq, Eq, Structural)]
pub enum RedialAction {
    /// Perform the client-role handshake on the fresh relay connection.
    AwaitHandshake,
    /// Hand the authenticated stream to an independent session — which
    /// connects the true destination and relays — and dial the next
    /// connection at once.
    SpawnAndRedial,
    /// Fatal: terminate the process with a nonzero status.  No retry.
    ExitProcess,
    /// Nothing to do; keep going.
    Continue,
}

/// Mathematical state of the redial loop: its phase alone — the loop owns
/// nothing that outlives one iteration.
#[verifier::ext_equal]
pub struct RedialModel {
    pub phase: RedialPhase,
}

/// The loop before its first dial.
pub open spec fn redial_init() -> RedialModel {
    RedialModel { phase: RedialPhase::ConnectingRelay }
}

/// One step of the redial loop.  Connect and handshake failures toward
/// the relay terminate the process; a finished session — successful or
/// not — changes nothing; terminal means terminal; an event that does not
/// belong to the current phase changes nothing.
pub open spec fn redial_step(m: RedialModel, ev: RedialEvent) -> (RedialModel, RedialAction) {
    match ev {
        RedialEvent::RelayConnected => if m.phase is ConnectingRelay {
            (RedialModel { phase: RedialPhase::HandshakingRelay }, RedialAction::AwaitHandshake)
        } else {
            (m, RedialAction::Continue)
        },
        RedialEvent::RelayConnectFailed => if m.phase is ConnectingRelay {
            (RedialModel { phase: RedialPhase::Terminated }, RedialAction::ExitProcess)
        } else {
            (m, RedialAction::Continue)
        },
        RedialEvent::HandshakeAccepted => if m.phase is HandshakingRelay {
            (RedialModel { phase: RedialPhase::ConnectingRelay }, RedialAction::SpawnAndRedial)
        } else {
            (m, RedialAction::Continue)
        },
        RedialEvent::HandshakeRejected => if m.phase is HandshakingRelay {
            (RedialModel { phase: RedialPhase::Terminated }, RedialAction::ExitProcess)
        } else {
            (m, RedialAction::Continue)
        },
        RedialEvent::SessionFinished(_) => (m, RedialAction::Continue),
    }
}

/// Law (fatal dial failure): a failed connect to the relay, or a rejected
/// handshake with it, terminates the process — the loop reaches its
/// terminal phase and orders a nonzero exit.
pub proof fn lemma_dial_failure_fatal(m: RedialModel)
    ensures
        m.phase is ConnectingRelay ==> redial_step(m, RedialEvent::RelayConnectFailed) == (
            RedialModel { phase: RedialPhase::Terminated },
            RedialAction::ExitProcess,
        ),
        m.phase is HandshakingRelay ==> redial_step(m, RedialEvent::HandshakeRejected) == (
            RedialModel { phase: RedialPhase::Terminated },
            RedialAction::ExitProcess,
        ),
{
}

/// Law (no retry): once terminated, the loop never dials again — no event
/// moves it out of the terminal phase or produces any further work.
pub proof fn lemma_terminated_never_redials(m: RedialModel, ev: RedialEvent)
    requires
        m.phase is Terminated,
    ensures
        redial_step(m, ev).0 == m,
        redial_step(m, ev).1 == RedialAction::Continue,
{
}

/// Law (isolation, dial side): the end of a spawned session — including a
/// failed destination connect or a relay error inside it — leaves the
/// loop state untouched and never terminates the process.
pub proof fn lemma_session_finish_isolated(m: RedialModel, ok: bool)
    ensures
        redial_step(m, RedialEvent::SessionFinished(ok)).0 == m,
        redial_step(m, RedialEvent::SessionFinished(ok)).1 == RedialAction::Continue,
{
}

/// The executable redial loop machine.
pub struct RedialLoop {
    /// Where the loop stands.
    pub phase: RedialPhase,
}

impl View for RedialLoop {
    type V = RedialModel;

    open spec fn view(&self) -> RedialModel {
        RedialModel { phase: self.phase }
    }
}

impl RedialLoop {
    /// A fresh loop, about to dial the relay for the first time.
    pub fn new() -> (l: RedialLoop)
        ensures
            l@ == redial_init(),
    {
        RedialLoop { phase: RedialPhase::ConnectingRelay }
    }

    /// Where the loop stands, for the surrounding loop's control flow.
    pub fn phase(&self) -> (p: RedialPhase)
        ensures
            p == self@.phase,
    {
        self.phase
    }

    /// Take one event and decide what the loop does next, exactly as the
    /// redial model does.
    pub fn on_event(&mut self, ev: RedialEvent) -> (a: RedialAction)
        ensures
            (final(self)@, a) == redial_step(old(self)@, ev),
    {
        match ev {
            RedialEvent::RelayConnected => {
                if matches!(self.phase, RedialPhase::ConnectingRelay) {
                    self.phase = RedialPhase::HandshakingRelay;
                    RedialAction::AwaitHandshake
                } else {
                    RedialAction::Continue
                }
            },
            RedialEvent::RelayConnectFailed => {
                if matches!(self.phase, RedialPhase::ConnectingRelay) {
                    self.phase = RedialPhase::Terminated;
                    RedialAction::ExitProcess
                } else {
                    RedialAction::Continue
                }
            },
            RedialEvent::HandshakeAccepted => {
                if matches!(self.phase, RedialPhase::HandshakingRelay) {
                    self.phase = RedialPhase::ConnectingRelay;
                    RedialAction::SpawnAndRedial
                } else {
                    RedialAction::Continue
                }
            },
            RedialEvent::HandshakeRejected => {
                if matches!(self.phase, RedialPhase::HandshakingRelay) {
                    self.phase = RedialPhase::Terminated;
                    RedialAction::ExitProcess
                } else {
                    RedialAction::Continue
                }
            },
            RedialEvent::SessionFinished(_) => RedialAction::Continue,
        }
    }
}

} // verus!
