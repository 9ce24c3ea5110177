//! Change broadcasting and the connection registry: delivery rules for
//! reload signals.
//!
//! One writer (the filesystem watcher) sends zero-payload signals to an
//! arbitrary, changing set of subscribers (one per connected client). A
//! subscriber never sees signals sent before it subscribed; a send never
//! blocks and succeeds with zero subscribers; each subscriber has a bounded
//! buffer, and when it falls behind, the oldest signals are dropped and the
//! subscriber is told how many it missed — which still means "reload".
//!
//! [`Fanout`] is a step-by-step account of those rules: a count of signals
//! sent so far, and one cursor per subscriber recording how many of them
//! that subscriber has observed or skipped. At run time the same rules are
//! carried out by tokio's broadcast channel (see [`crate::channel`]); the
//! laws proved here are stated over [`FanoutModel`], the mathematical state
//! of this type.

use vstd::prelude::*;

verus! {

/// What one receive attempt by a subscriber yields.
#[derive(Clone, Copy, PartialEq, Eq, Structural, Debug)]
pub enum RecvOutcome {
    /// Nothing is pending: every signal sent so far was already observed.
    Empty,
    /// One pending signal was consumed.
    Signal,
    /// The subscriber fell behind: `missed` signals were dropped before it
    /// could observe them. At least one real change occurred, so this still
    /// calls for a reload.
    Lagged { missed: u64 },
}

/// The mathematical state of the broadcaster: how many signals have been
/// sent on the channel, the per-subscriber buffer capacity, and one cursor
/// per subscriber counting the signals it has observed or skipped.
#[verifier::ext_equal]
pub ghost struct FanoutModel {
    /// Per-subscriber buffer bound; at least 1.
    pub capacity: u64,
    /// Signals sent on the channel since it was created.
    pub sent: u64,
    /// One entry per subscriber, in subscription order.
    pub cursors: Seq<u64>,
}

impl FanoutModel {
    /// Well-formed: the capacity is positive and no cursor runs ahead of
    /// what was actually sent.
    pub open spec fn wf(self) -> bool {
        &&& self.capacity >= 1
        &&& forall|i: int| 0 <= i < self.cursors.len() ==> #[trigger] self.cursors[i] <= self.sent
    }

    /// How many subscribers hold a receiving end.
    pub open spec fn subscribers(self) -> int {
        self.cursors.len() as int
    }

    /// How many signals subscriber `id` has not yet observed or skipped.
    pub open spec fn pending(self, id: int) -> int {
        self.sent - self.cursors[id]
    }

    /// A new subscriber starts at the current send count: nothing already
    /// sent is pending for it.
    pub open spec fn spec_subscribe(self) -> FanoutModel {
        FanoutModel { cursors: self.cursors.push(self.sent), ..self }
    }

    /// One send: the count rises, no cursor moves.
    pub open spec fn spec_send(self) -> FanoutModel {
        FanoutModel { sent: (self.sent + 1) as u64, ..self }
    }

    /// What a receive attempt by subscriber `id` yields: nothing when it is
    /// drained; one signal while it is within `capacity` of the writer; a
    /// lag report, counting the dropped signals, once it has fallen further
    /// behind than the buffer holds.
    pub open spec fn spec_recv_outcome(self, id: int) -> RecvOutcome {
        if self.pending(id) <= 0 {
            RecvOutcome::Empty
        } else if self.pending(id) <= self.capacity {
            RecvOutcome::Signal
        } else {
            RecvOutcome::Lagged { missed: (self.pending(id) - self.capacity) as u64 }
        }
    }

    /// The state after that receive attempt: a consumed signal advances the
    /// cursor by one; a lag report resynchronises it to the oldest signal
    /// still buffered; an empty attempt moves nothing.
    pub open spec fn spec_recv_state(self, id: int) -> FanoutModel {
        if self.pending(id) <= 0 {
            self
        } else if self.pending(id) <= self.capacity {
            FanoutModel { cursors: self.cursors.update(id, (self.cursors[id] + 1) as u64), ..self }
        } else {
            FanoutModel { cursors: self.cursors.update(id, (self.sent - self.capacity) as u64), ..self }
        }
    }
}

/// The broadcaster together with its registry of subscribers, as executable
/// state. Subscribers are addressed by the index handed out by
/// [`Fanout::subscribe`].
pub struct Fanout {
    capacity: u64,
    sent: u64,
    cursors: Vec<u64>,
}

impl View for Fanout {
    type V = FanoutModel;

    closed spec fn view(&self) -> FanoutModel {
        FanoutModel { capacity: self.capacity, sent: self.sent, cursors: self.cursors@ }
    }
}

impl Fanout {
    /// A fresh channel with the given per-subscriber buffer capacity and no
    /// subscribers. Nothing has been sent on it.
    pub fn new(capacity: u64) -> (f: Fanout)
        requires
            capacity >= 1,
        ensures
            f@ == (FanoutModel { capacity, sent: 0, cursors: Seq::<u64>::empty() }),
            f@.wf(),
    {
        let f = Fanout { capacity, sent: 0, cursors: Vec::new() };
        proof {
            assert(f@ =~= FanoutModel { capacity, sent: 0, cursors: Seq::<u64>::empty() });
        }
        f
    }

    /// Register a new subscriber and hand back its index. The new subscriber
    /// has nothing pending: signals sent before this call are never replayed
    /// to it.
    pub fn subscribe(&mut self) -> (id: usize)
        requires
            old(self)@.wf(),
        ensures
            final(self)@ == old(self)@.spec_subscribe(),
            final(self)@.wf(),
            id == old(self)@.subscribers(),
            final(self)@.pending(id as int) == 0,
    {
        let id = self.cursors.len();
        self.cursors.push(self.sent);
        proof {
            assert(self@ =~= old(self)@.spec_subscribe());
        }
        id
    }

    /// Send one signal: the send count rises by one and every subscriber's
    /// pending count with it. The send never blocks and never fails — with
    /// zero subscribers it simply goes unobserved.
    pub fn send(&mut self)
        requires
            old(self)@.wf(),
            old(self)@.sent < u64::MAX,
        ensures
            final(self)@ == old(self)@.spec_send(),
            final(self)@.wf(),
    {
        self.sent = self.sent + 1;
        proof {
            assert(self@ =~= old(self)@.spec_send());
        }
    }

    /// One receive attempt by subscriber `id`; see
    /// [`FanoutModel::spec_recv_outcome`] for what each outcome means. The
    /// attempt never fails and touches no other subscriber's state.
    pub fn recv(&mut self, id: usize) -> (out: RecvOutcome)
        requires
            old(self)@.wf(),
            id < old(self)@.subscribers(),
        ensures
            out == old(self)@.spec_recv_outcome(id as int),
            final(self)@ == old(self)@.spec_recv_state(id as int),
            final(self)@.wf(),
    {
        let cursor = self.cursors[id];
        if cursor == self.sent {
            proof {
                assert(self@ =~= old(self)@.spec_recv_state(id as int));
            }
            RecvOutcome::Empty
        } else {
            let pending = self.sent - cursor;
            if pending <= self.capacity {
                let slot = &mut self.cursors[id];
                *slot = cursor + 1;
                proof {
                    assert(self@ =~= old(self)@.spec_recv_state(id as int));
                }
                RecvOutcome::Signal
            } else {
                let resync = self.sent - self.capacity;
                let slot = &mut self.cursors[id];
                *slot = resync;
                proof {
                    assert(self@ =~= old(self)@.spec_recv_state(id as int));
                }
                RecvOutcome::Lagged { missed: pending - self.capacity }
            }
        }
    }
}

/// No-replay law: after one more send, a subscriber created only then finds
/// the channel empty on its first receive — the earlier signal is not
/// replayed to it — while a subscriber that was already registered and
/// drained before the send receives that signal.
pub proof fn lemma_no_replay(m: FanoutModel, id: int)
    requires
        m.wf(),
        m.sent < u64::MAX,
        0 <= id < m.subscribers(),
        m.pending(id) == 0,
    ensures
        m.spec_send().spec_subscribe().spec_recv_outcome(m.subscribers()) == RecvOutcome::Empty,
        m.spec_send().spec_subscribe().spec_recv_outcome(id) == RecvOutcome::Signal,
{
}

/// Fan-out independence law: one send raises every subscriber's pending
/// count by exactly one, and delivers to every drained subscriber; a receive
/// by one subscriber moves no other subscriber's cursor and changes no other
/// subscriber's outcome. A subscriber that does not drain cannot block or
/// starve the others.
pub proof fn lemma_fanout_independence(m: FanoutModel, i: int, j: int)
    requires
        m.wf(),
        m.sent < u64::MAX,
        0 <= i < m.subscribers(),
        0 <= j < m.subscribers(),
        i != j,
    ensures
        m.spec_send().pending(i) == m.pending(i) + 1,
        m.spec_send().pending(j) == m.pending(j) + 1,
        forall|k: int|
            0 <= k < m.subscribers() && m.pending(k) == 0 ==> m.spec_send().spec_recv_outcome(k)
                == RecvOutcome::Signal,
        m.spec_recv_state(i).cursors[j] == m.cursors[j],
        m.spec_recv_state(i).spec_recv_outcome(j) == m.spec_recv_outcome(j),
{
}

/// Overflow recovery law: a subscriber that has fallen further behind than
/// its buffer holds is not stuck — its next receive reports exactly how many
/// signals were dropped, resynchronises it to within the buffer bound, and
/// the receive after that yields a signal normally.
pub proof fn lemma_overflow_recovery(m: FanoutModel, id: int)
    requires
        m.wf(),
        0 <= id < m.subscribers(),
        m.pending(id) > m.capacity,
    ensures
        m.spec_recv_outcome(id) == (RecvOutcome::Lagged {
            missed: (m.pending(id) - m.capacity) as u64,
        }),
        m.spec_recv_state(id).pending(id) == m.capacity,
        m.spec_recv_state(id).spec_recv_outcome(id) == RecvOutcome::Signal,
{
}

/// Exactly-once delivery law: a drained subscriber takes exactly one signal
/// from one send — its first receive yields the signal, its second finds the
/// channel empty again.
pub proof fn lemma_single_send_single_delivery(m: FanoutModel, id: int)
    requires
        m.wf(),
        m.sent < u64::MAX,
        0 <= id < m.subscribers(),
        m.pending(id) == 0,
    ensures
        m.spec_send().spec_recv_outcome(id) == RecvOutcome::Signal,
        m.spec_send().spec_recv_state(id).spec_recv_outcome(id) == RecvOutcome::Empty,
{
}

} // verus!
