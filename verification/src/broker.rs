//! The relay-side session broker.
//!
//! The relay binds two listening endpoints: a public one, where the dial
//! side connects in over TLS, and a private one, where the local
//! application peer connects in plaintext.  The broker pairs arrivals
//! strictly first-in-first-out and one-to-one: the n-th connection accepted
//! on the public endpoint is paired with the n-th connection accepted on
//! the private endpoint, whatever the timing skew between the two, and each
//! pairing is handed off to an independent relay session.  The end of a
//! session — success or failure — never touches the broker's state.
//!
//! The surrounding accept loop reports each arrival (and each session end)
//! as a [`BrokerEvent`] and performs the returned [`BrokerAction`].

use vstd::prelude::*;

verus! {

/// What the accept loop observed.  Connections are named by plain
/// identifiers assigned by the loop in arrival order.
#[derive(Clone, Copy, Debug, PartialEq, Eq, Structural)]
pub enum BrokerEvent {
    /// A connection was accepted on the public (TLS-facing) endpoint.
    ProxyAccepted(u64),
    /// A connection was accepted on the private (plaintext) endpoint.
    IncomingAccepted(u64),
    /// A previously spawned relay session finished; `true` means it
    /// completed without error.
    SessionEnded(bool),
}

/// What the accept loop must do next.
#[derive(Clone, Copy, Debug, PartialEq, Eq, Structural)]
pub enum BrokerAction {
    /// Keep accepting; no pairing is complete.
    Wait,
    /// Hand this (public connection, private connection) pairing to a new
    /// relay session and keep accepting without waiting for it.
    Pair(u64, u64),
}

/// Mathematical state of the broker: every arrival on each endpoint in
/// arrival order, and every pairing handed off so far, in hand-off order.
#[verifier::ext_equal]
pub struct BrokerModel {
    pub proxy: Seq<u64>,
    pub incoming: Seq<u64>,
    pub pairs: Seq<(u64, u64)>,
}

/// The broker before any arrival.
pub open spec fn broker_init() -> BrokerModel {
    BrokerModel { proxy: Seq::empty(), incoming: Seq::empty(), pairs: Seq::empty() }
}

/// Hand off the next pairing if both of its arrivals exist.
pub open spec fn broker_pair_ready(m: BrokerModel) -> (BrokerModel, BrokerAction) {
    if m.pairs.len() < m.proxy.len() && m.pairs.len() < m.incoming.len() {
        let i = m.pairs.len() as int;
        (
            BrokerModel {
                proxy: m.proxy,
                incoming: m.incoming,
                pairs: m.pairs.push((m.proxy[i], m.incoming[i])),
            },
            BrokerAction::Pair(m.proxy[i], m.incoming[i]),
        )
    } else {
        (m, BrokerAction::Wait)
    }
}

/// One step of the broker: record the event, then pair if a pairing just
/// became complete.  A session ending changes nothing.
pub open spec fn broker_step(m: BrokerModel, ev: BrokerEvent) -> (BrokerModel, BrokerAction) {
    match ev {
        BrokerEvent::ProxyAccepted(id) => broker_pair_ready(
            BrokerModel { proxy: m.proxy.push(id), incoming: m.incoming, pairs: m.pairs },
        ),
        BrokerEvent::IncomingAccepted(id) => broker_pair_ready(
            BrokerModel { proxy: m.proxy, incoming: m.incoming.push(id), pairs: m.pairs },
        ),
        BrokerEvent::SessionEnded(_) => (m, BrokerAction::Wait),
    }
}

/// The broker state after a whole sequence of events, from the start.
pub open spec fn broker_run(evs: Seq<BrokerEvent>) -> BrokerModel
    decreases evs.len(),
{
    if evs.len() == 0 {
        broker_init()
    } else {
        broker_step(broker_run(evs.drop_last()), evs.last()).0
    }
}

/// Well-formedness: pairings are handed off eagerly — exactly one for every
/// index at which both arrivals exist — and the i-th pairing joins the i-th
/// arrival on each endpoint.
pub open spec fn broker_wf(m: BrokerModel) -> bool {
    &&& m.pairs.len() == vstd::math::min(m.proxy.len() as int, m.incoming.len() as int)
    &&& forall|i: int|
        0 <= i < m.pairs.len() ==> m.pairs[i] == (m.proxy[i], m.incoming[i])
}

/// One broker step preserves well-formedness.
pub proof fn lemma_broker_step_preserves_wf(m: BrokerModel, ev: BrokerEvent)
    requires
        broker_wf(m),
    ensures
        broker_wf(broker_step(m, ev).0),
{
}

/// Law (FIFO pairing): whatever the interleaving of arrivals on the two
/// endpoints, the broker pairs the i-th arrival on the public endpoint with
/// the i-th arrival on the private endpoint, for every i at which both
/// exist, and hands off no other pairing.
pub proof fn lemma_fifo_pairing(evs: Seq<BrokerEvent>)
    ensures
        broker_wf(broker_run(evs)),
    decreases evs.len(),
{
    if evs.len() > 0 {
        lemma_fifo_pairing(evs.drop_last());
        lemma_broker_step_preserves_wf(broker_run(evs.drop_last()), evs.last());
    }
}

/// Law (isolation, relay side): the end of one session, successful or not,
/// leaves the broker untouched — it aborts no pairing, forgets no arrival,
/// and the accept loop simply continues.
pub proof fn lemma_session_end_isolated(m: BrokerModel, ok: bool)
    ensures
        broker_step(m, BrokerEvent::SessionEnded(ok)).0 == m,
        broker_step(m, BrokerEvent::SessionEnded(ok)).1 == BrokerAction::Wait,
{
}

/// The executable broker.  It keeps each endpoint's arrivals in order and a
/// count of pairings handed off; the accept loop drives it one event at a
/// time.
pub struct SessionBroker {
    /// Every arrival on the public endpoint, in arrival order.
    pub proxy_log: Vec<u64>,
    /// Every arrival on the private endpoint, in arrival order.
    pub incoming_log: Vec<u64>,
    /// How many pairings have been handed off.
    pub paired: usize,
}

impl View for SessionBroker {
    type V = BrokerModel;

    open spec fn view(&self) -> BrokerModel {
        BrokerModel {
            proxy: self.proxy_log@,
            incoming: self.incoming_log@,
            pairs: Seq::new(
                self.paired as nat,
                |i: int| (self.proxy_log@[i], self.incoming_log@[i]),
            ),
        }
    }
}

impl SessionBroker {
    /// The pairing count never runs ahead of either endpoint's arrivals.
    pub open spec fn inv(&self) -> bool {
        self.paired == vstd::math::min(self.proxy_log@.len() as int, self.incoming_log@.len() as int)
    }

    /// A fresh broker with no arrivals and no pairings.
    pub fn new() -> (b: SessionBroker)
        ensures
            b.inv(),
            b@ == broker_init(),
            broker_wf(b@),
    {
        let b = SessionBroker { proxy_log: Vec::new(), incoming_log: Vec::new(), paired: 0 };
        proof {
            assert(b@.pairs =~= broker_init().pairs);
            assert(b@ =~= broker_init());
        }
        b
    }

    /// Record one event and decide what the accept loop does next, exactly
    /// as the broker model does.
    pub fn on_event(&mut self, ev: BrokerEvent) -> (a: BrokerAction)
        requires
            old(self).inv(),
        ensures
            final(self).inv(),
            (final(self)@, a) == broker_step(old(self)@, ev),
            broker_wf(old(self)@) ==> broker_wf(final(self)@),
    {
        proof {
            lemma_broker_step_preserves_wf(old(self)@, ev);
        }
        match ev {
            BrokerEvent::ProxyAccepted(id) => {
                self.proxy_log.push(id);
            },
            BrokerEvent::IncomingAccepted(id) => {
                self.incoming_log.push(id);
            },
            BrokerEvent::SessionEnded(_) => {
                proof {
                    assert(self@ =~= broker_step(old(self)@, ev).0);
                }
                return BrokerAction::Wait;
            },
        }
        let ghost recorded = BrokerModel {
            proxy: self.proxy_log@,
            incoming: self.incoming_log@,
            pairs: old(self)@.pairs,
        };
        proof {
            assert(self@ =~= recorded);
            assert(broker_step(old(self)@, ev) == broker_pair_ready(recorded));
        }
        if self.paired < self.proxy_log.len() && self.paired < self.incoming_log.len() {
            let p = self.proxy_log[self.paired];
            let q = self.incoming_log[self.paired];
            self.paired = self.paired + 1;
            proof {
                assert(self@.pairs =~= recorded.pairs.push((p, q)));
                assert(self@ =~= broker_pair_ready(recorded).0);
            }
            BrokerAction::Pair(p, q)
        } else {
            proof {
                assert(self@ =~= broker_pair_ready(recorded).0);
            }
            BrokerAction::Wait
        }
    }
}

} // verus!
