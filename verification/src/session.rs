//! The per-session state machine.
//!
//! Each tunneled connection, on either side, moves through
//! `Connecting → Handshaking → Relaying → Closed`, with `Aborted` reachable
//! from `Handshaking` (pin mismatch or I/O error) and from `Relaying` (I/O
//! error).  The session reaches the relay phase only if the peer presented
//! an identity byte-identical to the pinned reference for its role; in
//! particular, no relay traffic ever crosses a session whose peer did not
//! present the pinned reference.  A session's failure is local to it.

use vstd::prelude::*;

use crate::identity::Identity;

verus! {

/// Where a session stands.
#[derive(Clone, Copy, Debug, PartialEq, Eq, Structural)]
pub enum SessionPhase {
    /// The transport connection(s) are being established.
    Connecting,
    /// The TLS handshake on the authenticated leg is in flight.
    Handshaking,
    /// The handshake succeeded; bytes are being relayed.
    Relaying,
    /// Both directions reached end-of-stream; the session is over.
    Closed,
    /// A pin mismatch or I/O error ended the session.
    Aborted,
}

/// What the surrounding task observed for this session.
pub enum SessionEvent {
    /// The underlying transport connection(s) are established.
    TransportReady,
    /// The handshake produced the peer's end-entity identity.
    PeerPresented(Identity),
    /// A chunk of bytes crossed the session, in either direction.
    Relayed(Vec<u8>),
    /// Both relay directions reached their end.
    StreamsClosed,
    /// An I/O error hit the handshake or the relay.
    IoFailed,
}

/// Mathematical image of a session event.
pub enum SessionEventModel {
    TransportReady,
    PeerPresented(Seq<u8>),
    Relayed(Seq<u8>),
    StreamsClosed,
    IoFailed,
}

impl View for SessionEvent {
    type V = SessionEventModel;

    open spec fn view(&self) -> SessionEventModel {
        match self {
            SessionEvent::TransportReady => SessionEventModel::TransportReady,
            SessionEvent::PeerPresented(id) => SessionEventModel::PeerPresented(id@),
            SessionEvent::Relayed(buf) => SessionEventModel::Relayed(buf@),
            SessionEvent::StreamsClosed => SessionEventModel::StreamsClosed,
            SessionEvent::IoFailed => SessionEventModel::IoFailed,
        }
    }
}

/// Mathematical state of a session: its phase, the pinned reference for
/// its authenticated leg, the identity the peer presented (once it has),
/// and every byte relayed across it.
#[verifier::ext_equal]
pub struct SessionModel {
    pub phase: SessionPhase,
    pub pinned: Seq<u8>,
    pub peer: Option<Seq<u8>>,
    pub relayed: Seq<u8>,
}

/// A fresh session trusting exactly `pinned`.
pub open spec fn session_init(pinned: Seq<u8>) -> SessionModel {
    SessionModel {
        phase: SessionPhase::Connecting,
        pinned: pinned,
        peer: Option::None,
        relayed: Seq::empty(),
    }
}

/// One step of a session.  The handshake outcome is decided solely by
/// byte equality against the pinned reference; traffic is recorded only
/// while relaying; terminal phases absorb every event; an event that does
/// not belong to the current phase changes nothing.
pub open spec fn session_step(m: SessionModel, ev: SessionEventModel) -> SessionModel {
    match ev {
        SessionEventModel::TransportReady => if m.phase is Connecting {
            SessionModel { phase: SessionPhase::Handshaking, ..m }
        } else {
            m
        },
        SessionEventModel::PeerPresented(p) => if m.phase is Handshaking {
            if p == m.pinned {
                SessionModel { phase: SessionPhase::Relaying, peer: Option::Some(p), ..m }
            } else {
                SessionModel { phase: SessionPhase::Aborted, peer: Option::Some(p), ..m }
            }
        } else {
            m
        },
        SessionEventModel::Relayed(bytes) => if m.phase is Relaying {
            SessionModel { relayed: m.relayed + bytes, ..m }
        } else {
            m
        },
        SessionEventModel::StreamsClosed => if m.phase is Relaying {
            SessionModel { phase: SessionPhase::Closed, ..m }
        } else {
            m
        },
        SessionEventModel::IoFailed => if m.phase is Handshaking || m.phase is Relaying {
            SessionModel { phase: SessionPhase::Aborted, ..m }
        } else {
            m
        },
    }
}

/// The state of a session after a whole sequence of events.
pub open spec fn session_run(pinned: Seq<u8>, evs: Seq<SessionEventModel>) -> SessionModel
    decreases evs.len(),
{
    if evs.len() == 0 {
        session_init(pinned)
    } else {
        session_step(session_run(pinned, evs.drop_last()), evs.last())
    }
}

/// The pin gate: a session that is relaying, has finished relaying, or has
/// ever carried a byte, owes that to a peer that presented the pinned
/// reference, byte-identically.
pub open spec fn session_inv(m: SessionModel) -> bool {
    &&& (m.phase is Relaying || m.phase is Closed) ==> m.peer == Option::Some(m.pinned)
    &&& m.relayed.len() > 0 ==> m.peer == Option::Some(m.pinned)
    &&& (m.phase is Connecting || m.phase is Handshaking) ==> m.relayed.len() == 0
}

/// One session step preserves the pin gate.
pub proof fn lemma_session_step_preserves_inv(m: SessionModel, ev: SessionEventModel)
    requires
        session_inv(m),
    ensures
        session_inv(session_step(m, ev)),
{
}

/// Law (pin correctness, positive): a handshake in which the peer presents
/// exactly the pinned reference always succeeds — the session moves to the
/// relay phase.
pub proof fn lemma_pin_accepts(m: SessionModel)
    requires
        m.phase is Handshaking,
    ensures
        session_step(m, SessionEventModel::PeerPresented(m.pinned)).phase is Relaying,
{
}

/// Law (pin correctness, negative): a handshake in which the peer presents
/// anything not byte-identical to the pinned reference always fails — the
/// session aborts and never reaches the relay phase.
pub proof fn lemma_pin_rejects(m: SessionModel, presented: Seq<u8>)
    requires
        m.phase is Handshaking,
        presented != m.pinned,
    ensures
        session_step(m, SessionEventModel::PeerPresented(presented)).phase is Aborted,
{
}

/// Law (no traffic without the pin): after any sequence of events, a
/// session that has carried even one byte had its peer present the pinned
/// reference; a rejected handshake happens before any relay traffic is
/// exchanged.
pub proof fn lemma_no_traffic_without_pin(pinned: Seq<u8>, evs: Seq<SessionEventModel>)
    ensures
        session_inv(session_run(pinned, evs)),
        session_run(pinned, evs).relayed.len() > 0 ==> session_run(pinned, evs).peer
            == Option::Some(pinned),
    decreases evs.len(),
{
    if evs.len() > 0 {
        lemma_no_traffic_without_pin(pinned, evs.drop_last());
        lemma_session_step_preserves_inv(session_run(pinned, evs.drop_last()), evs.last());
    }
    assert(session_run(pinned, evs).pinned == pinned) by {
        lemma_session_pinned_immutable(pinned, evs);
    }
}

/// The pinned reference is immutable for the life of the session: no event
/// replaces it.
pub proof fn lemma_session_pinned_immutable(pinned: Seq<u8>, evs: Seq<SessionEventModel>)
    ensures
        session_run(pinned, evs).pinned == pinned,
    decreases evs.len(),
{
    if evs.len() > 0 {
        lemma_session_pinned_immutable(pinned, evs.drop_last());
    }
}

/// The executable session machine.  The surrounding task reports what the
/// sockets and the handshake produced; the machine tracks the phase and,
/// in ghost state, the traffic.
pub struct Session {
    /// Where the session stands.
    pub phase: SessionPhase,
    /// The pinned reference for the authenticated leg.
    pub pinned: Identity,
    /// The identity the peer presented, once the handshake produced one.
    pub peer: Option<Identity>,
    /// Every byte relayed across the session, in order.
    pub relayed: Ghost<Seq<u8>>,
}

impl View for Session {
    type V = SessionModel;

    open spec fn view(&self) -> SessionModel {
        SessionModel {
            phase: self.phase,
            pinned: self.pinned@,
            peer: match self.peer {
                Option::Some(p) => Option::Some(p@),
                Option::None => Option::None,
            },
            relayed: self.relayed@,
        }
    }
}

impl Session {
    /// A fresh session trusting exactly `pinned`.
    pub fn new(pinned: Identity) -> (s: Session)
        ensures
            s@ == session_init(pinned@),
            session_inv(s@),
    {
        let s = Session {
            phase: SessionPhase::Connecting,
            pinned,
            peer: Option::None,
            relayed: Ghost(Seq::empty()),
        };
        proof {
            assert(s@ =~= session_init(s.pinned@));
        }
        s
    }

    /// Where the session stands, for the surrounding task's control flow.
    pub fn phase(&self) -> (p: SessionPhase)
        ensures
            p == self@.phase,
    {
        self.phase
    }

    /// Take one event, exactly as the session model does.  The handshake
    /// outcome is byte equality against the pinned reference and nothing
    /// else.
    pub fn on_event(&mut self, ev: SessionEvent)
        ensures
            final(self)@ == session_step(old(self)@, ev@),
            session_inv(old(self)@) ==> session_inv(final(self)@),
    {
        proof {
            if session_inv(old(self)@) {
                lemma_session_step_preserves_inv(old(self)@, ev@);
            }
        }
        match ev {
            SessionEvent::TransportReady => {
                if matches!(self.phase, SessionPhase::Connecting) {
                    self.phase = SessionPhase::Handshaking;
                }
            },
            SessionEvent::PeerPresented(id) => {
                if matches!(self.phase, SessionPhase::Handshaking) {
                    if id.same_bytes(&self.pinned) {
                        self.phase = SessionPhase::Relaying;
                    } else {
                        self.phase = SessionPhase::Aborted;
                    }
                    self.peer = Option::Some(id);
                }
            },
            SessionEvent::Relayed(buf) => {
                if matches!(self.phase, SessionPhase::Relaying) {
                    self.relayed = Ghost(self.relayed@ + buf@);
                }
            },
            SessionEvent::StreamsClosed => {
                if matches!(self.phase, SessionPhase::Relaying) {
                    self.phase = SessionPhase::Closed;
                }
            },
            SessionEvent::IoFailed => {
                if matches!(self.phase, SessionPhase::Handshaking)
                    || matches!(self.phase, SessionPhase::Relaying) {
                    self.phase = SessionPhase::Aborted;
                }
            },
        }
        proof {
            assert(self@ =~= session_step(old(self)@, ev@));
        }
    }
}

} // verus!
