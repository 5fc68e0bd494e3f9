//! The relay engine.
//!
//! Given two established byte streams — one of them TLS-wrapped,
//! transparently to the engine — the relay copies bytes read from each into
//! the other, in both directions, until end-of-stream or an error puts the
//! direction in a terminal state.  Each direction is an independent state
//! machine: every chunk read is forwarded unchanged and in order
//! (byte-for-byte fidelity), end-of-stream on the read side shuts down the
//! write side of the peer (half-close propagation), and an error aborts the
//! direction.  The engine is done once both directions are terminal.
//!
//! The surrounding pump loop reads from a stream, reports the outcome as a
//! [`ReadOutcome`], and performs the returned [`RelayAction`] on the peer
//! stream.

use vstd::prelude::*;

verus! {

/// Progress of one direction of one session.
#[derive(Clone, Copy, Debug, PartialEq, Eq, Structural)]
pub enum DirectionPhase {
    /// Bytes may still flow.
    Streaming,
    /// End-of-stream was read and the peer's write side is shut down.
    Closed,
    /// An I/O error ended this direction.
    Aborted,
}

/// Outcome of one read poll on the source stream of a direction.
#[derive(Clone, Debug, PartialEq, Eq)]
pub enum ReadOutcome {
    /// A chunk of bytes arrived.
    Data(Vec<u8>),
    /// The source reached end-of-stream.
    Eof,
    /// Reading (or the preceding write) failed.
    Failed,
}

/// What the pump loop must do on the sink stream of the direction.
#[derive(Clone, Debug, PartialEq, Eq)]
pub enum RelayAction {
    /// Write exactly these bytes to the sink, after everything forwarded
    /// before them.
    Forward(Vec<u8>),
    /// Shut down the sink's write side: no more data is coming.
    ShutdownWrite,
    /// Tear the session down; the error is local to it.
    Abort,
}

/// Mathematical image of a read outcome.
pub enum ReadEventModel {
    Data(Seq<u8>),
    Eof,
    Failed,
}

/// Mathematical image of a relay action.
pub enum RelayActionModel {
    Forward(Seq<u8>),
    ShutdownWrite,
    Abort,
}

impl View for ReadOutcome {
    type V = ReadEventModel;

    open spec fn view(&self) -> ReadEventModel {
        match self {
            ReadOutcome::Data(buf) => ReadEventModel::Data(buf@),
            ReadOutcome::Eof => ReadEventModel::Eof,
            ReadOutcome::Failed => ReadEventModel::Failed,
        }
    }
}

impl View for RelayAction {
    type V = RelayActionModel;

    open spec fn view(&self) -> RelayActionModel {
        match self {
            RelayAction::Forward(buf) => RelayActionModel::Forward(buf@),
            RelayAction::ShutdownWrite => RelayActionModel::ShutdownWrite,
            RelayAction::Abort => RelayActionModel::Abort,
        }
    }
}

/// Mathematical state of one direction: its phase, every byte read from
/// the source so far (`carried`), and every byte handed to the sink so far
/// (`delivered`), each in order.
#[verifier::ext_equal]
pub struct DirectionModel {
    pub phase: DirectionPhase,
    pub carried: Seq<u8>,
    pub delivered: Seq<u8>,
}

/// A direction before any byte has flowed.
pub open spec fn direction_init() -> DirectionModel {
    DirectionModel { phase: DirectionPhase::Streaming, carried: Seq::empty(), delivered: Seq::empty() }
}

/// One step of a direction.  While streaming: a chunk is forwarded
/// unchanged and appended to both transcripts; end-of-stream closes the
/// direction and shuts the peer's write side down; an error aborts it.
/// A terminal direction takes no event and changes nothing.
pub open spec fn direction_step(s: DirectionModel, ev: ReadEventModel) -> (DirectionModel, Option<
    RelayActionModel,
>) {
    if s.phase is Streaming {
        match ev {
            ReadEventModel::Data(bytes) => (
                DirectionModel {
                    phase: DirectionPhase::Streaming,
                    carried: s.carried + bytes,
                    delivered: s.delivered + bytes,
                },
                Some(RelayActionModel::Forward(bytes)),
            ),
            ReadEventModel::Eof => (
                DirectionModel { phase: DirectionPhase::Closed, carried: s.carried, delivered: s.delivered },
                Some(RelayActionModel::ShutdownWrite),
            ),
            ReadEventModel::Failed => (
                DirectionModel { phase: DirectionPhase::Aborted, carried: s.carried, delivered: s.delivered },
                Some(RelayActionModel::Abort),
            ),
        }
    } else {
        (s, None)
    }
}

/// The state of a direction after a whole sequence of read events.
pub open spec fn direction_run(evs: Seq<ReadEventModel>) -> DirectionModel
    decreases evs.len(),
{
    if evs.len() == 0 {
        direction_init()
    } else {
        direction_step(direction_run(evs.drop_last()), evs.last()).0
    }
}

/// Law (relay fidelity): after any sequence of read events, the bytes a
/// direction has handed to its sink are exactly the bytes it read from its
/// source, in order.  Each direction of a session satisfies this
/// independently.
pub proof fn lemma_relay_fidelity(evs: Seq<ReadEventModel>)
    ensures
        direction_run(evs).delivered == direction_run(evs).carried,
    decreases evs.len(),
{
    if evs.len() > 0 {
        lemma_relay_fidelity(evs.drop_last());
    }
}

/// Law (half-close propagation): end-of-stream on the read side of a
/// streaming direction immediately shuts down the write side of the peer
/// stream and closes the direction, forwarding no further bytes.
pub proof fn lemma_half_close(s: DirectionModel)
    requires
        s.phase is Streaming,
    ensures
        direction_step(s, ReadEventModel::Eof).1 == Some(RelayActionModel::ShutdownWrite),
        direction_step(s, ReadEventModel::Eof).0.phase is Closed,
        direction_step(s, ReadEventModel::Eof).0.carried == s.carried,
        direction_step(s, ReadEventModel::Eof).0.delivered == s.delivered,
{
}

/// Law (termination of a direction): a terminal direction is absorbing —
/// no event moves it or makes it forward anything; the session's unit of
/// work can end.
pub proof fn lemma_terminal_absorbing(s: DirectionModel, ev: ReadEventModel)
    requires
        !(s.phase is Streaming),
    ensures
        direction_step(s, ev).0 == s,
        direction_step(s, ev).1 is None,
{
}

/// The executable state machine for one direction.  The transcripts are
/// ghost: the pump loop performs the real reads and writes and feeds the
/// outcomes in.
pub struct RelayDirection {
    /// Where this direction stands.
    pub phase: DirectionPhase,
    /// Every byte read from the source, in order.
    pub carried: Ghost<Seq<u8>>,
    /// Every byte handed to the sink, in order.
    pub delivered: Ghost<Seq<u8>>,
}

impl View for RelayDirection {
    type V = DirectionModel;

    open spec fn view(&self) -> DirectionModel {
        DirectionModel { phase: self.phase, carried: self.carried@, delivered: self.delivered@ }
    }
}

impl RelayDirection {
    /// A fresh direction with nothing read or written.
    pub fn new() -> (d: RelayDirection)
        ensures
            d@ == direction_init(),
    {
        let d = RelayDirection {
            phase: DirectionPhase::Streaming,
            carried: Ghost(Seq::empty()),
            delivered: Ghost(Seq::empty()),
        };
        proof {
            assert(d@ =~= direction_init());
        }
        d
    }

    /// Where this direction stands, for the pump loop's own control flow.
    pub fn phase(&self) -> (p: DirectionPhase)
        ensures
            p == self@.phase,
    {
        self.phase
    }

    /// Take one read outcome and decide what the pump loop does on the
    /// sink, exactly as the direction model does.
    pub fn step(&mut self, ev: ReadOutcome) -> (a: RelayAction)
        requires
            old(self)@.phase is Streaming,
        ensures
            final(self)@ == direction_step(old(self)@, ev@).0,
            direction_step(old(self)@, ev@).1 == Some(a@),
    {
        match ev {
            ReadOutcome::Data(buf) => {
                self.carried = Ghost(self.carried@ + buf@);
                self.delivered = Ghost(self.delivered@ + buf@);
                proof {
                    assert(self@ =~= direction_step(old(self)@, ev@).0);
                }
                RelayAction::Forward(buf)
            },
            ReadOutcome::Eof => {
                self.phase = DirectionPhase::Closed;
                proof {
                    assert(self@ =~= direction_step(old(self)@, ev@).0);
                }
                RelayAction::ShutdownWrite
            },
            ReadOutcome::Failed => {
                self.phase = DirectionPhase::Aborted;
                proof {
                    assert(self@ =~= direction_step(old(self)@, ev@).0);
                }
                RelayAction::Abort
            },
        }
    }
}

/// One session's relay engine: two independent directions between the
/// authenticated stream and the plain stream.  The engine is done — and
/// control returns to the caller — once both directions are terminal.
pub struct RelayEngine {
    /// Bytes flowing from the authenticated (public) stream to the plain
    /// (private) stream.
    pub from_proxy: RelayDirection,
    /// Bytes flowing from the plain stream back to the authenticated one.
    pub from_incoming: RelayDirection,
}

impl RelayEngine {
    /// A fresh engine with both directions streaming and empty.
    pub fn new() -> (e: RelayEngine)
        ensures
            e.from_proxy@ == direction_init(),
            e.from_incoming@ == direction_init(),
    {
        RelayEngine { from_proxy: RelayDirection::new(), from_incoming: RelayDirection::new() }
    }

    /// Feed a read outcome from the authenticated stream.  The other
    /// direction is untouched: the two directions share nothing.
    pub fn step_from_proxy(&mut self, ev: ReadOutcome) -> (a: RelayAction)
        requires
            old(self).from_proxy@.phase is Streaming,
        ensures
            final(self).from_proxy@ == direction_step(old(self).from_proxy@, ev@).0,
            direction_step(old(self).from_proxy@, ev@).1 == Some(a@),
            final(self).from_incoming == old(self).from_incoming,
    {
        self.from_proxy.step(ev)
    }

    /// Feed a read outcome from the plain stream.  The other direction is
    /// untouched.
    pub fn step_from_incoming(&mut self, ev: ReadOutcome) -> (a: RelayAction)
        requires
            old(self).from_incoming@.phase is Streaming,
        ensures
            final(self).from_incoming@ == direction_step(old(self).from_incoming@, ev@).0,
            direction_step(old(self).from_incoming@, ev@).1 == Some(a@),
            final(self).from_proxy == old(self).from_proxy,
    {
        self.from_incoming.step(ev)
    }

    /// Whether the relay operation is complete: both directions terminal.
    pub fn finished(&self) -> (r: bool)
        ensures
            r == (!(self.from_proxy@.phase is Streaming) && !(self.from_incoming@.phase
                is Streaming)),
    {
        let p = self.from_proxy.phase();
        let q = self.from_incoming.phase();
        !(matches!(p, DirectionPhase::Streaming)) && !(matches!(q, DirectionPhase::Streaming))
    }
}

} // verus!
