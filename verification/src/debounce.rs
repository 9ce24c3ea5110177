//! The filesystem watcher's coalescing logic.
//!
//! Editors often perform several filesystem operations for one logical save
//! (write to a temporary file, then rename). To avoid flooding clients, raw
//! events are not forwarded one by one: the first relevant event arms a
//! timer one debounce window ahead, further events while the timer is armed
//! are absorbed, and a single reload signal is emitted when the timer fires.
//!
//! The watcher task owns one [`Debouncer`] and drives it with plain values:
//! the kind of each raw event and the current time in milliseconds. What
//! actually watches the directory tree — and what the clock is — lives
//! outside this crate.

use vstd::prelude::*;

verus! {

/// The kind of a raw filesystem notification, as the watcher's event source
/// reports it.
#[derive(Clone, Copy, PartialEq, Eq, Structural, Debug)]
pub enum EventKind {
    /// A file or directory was created.
    Create,
    /// A file's contents or metadata changed.
    Modify,
    /// A file or directory was removed.
    Delete,
    /// A file or directory was renamed.
    Rename,
    /// Anything else (accesses, unclassified notifications): ignored.
    Other,
}

/// Whether an event of this kind should schedule a reload: creations,
/// modifications, deletions and renames do; anything else is ignored.
pub open spec fn spec_is_relevant(kind: EventKind) -> bool {
    kind != EventKind::Other
}

/// Decide whether a raw event of this kind should schedule a reload.
pub fn is_relevant(kind: EventKind) -> (r: bool)
    ensures
        r == spec_is_relevant(kind),
{
    match kind {
        EventKind::Other => false,
        _ => true,
    }
}

/// `a + b`, stopped at the largest representable time. A deadline clamped
/// this way only ever delays an emission, never invents one.
pub open spec fn spec_sat_add(a: u64, b: u64) -> u64 {
    if a + b > u64::MAX {
        u64::MAX
    } else {
        (a + b) as u64
    }
}

/// Collapses a burst of filesystem events into a single emission.
///
/// The debouncer is armed by the first relevant event, which sets a deadline
/// one window ahead; while armed it absorbs further events; when the caller
/// reports that the deadline has passed, it emits once and disarms.
pub struct Debouncer {
    /// Length of the coalescing window, in milliseconds.
    pub window_ms: u64,
    /// The armed timer's deadline, in milliseconds, if one is armed.
    pub deadline: Option<u64>,
}

impl Debouncer {
    /// Whether a timer is currently armed.
    pub open spec fn armed(self) -> bool {
        self.deadline is Some
    }

    /// The state after noting one relevant event at time `now`: the first
    /// event arms the timer one window ahead; an event while armed changes
    /// nothing — it is coalesced into the pending emission.
    pub open spec fn spec_note(self, now: u64) -> Debouncer {
        if self.armed() {
            self
        } else {
            Debouncer { deadline: Some(spec_sat_add(now, self.window_ms)), ..self }
        }
    }

    /// Whether reporting time `now` makes the debouncer emit: a timer is
    /// armed and its deadline has passed.
    pub open spec fn spec_fire_emits(self, now: u64) -> bool {
        self.deadline matches Some(deadline) && deadline <= now
    }

    /// The state after reporting time `now`: an emission disarms the timer,
    /// anything else changes nothing.
    pub open spec fn spec_fire_state(self, now: u64) -> Debouncer {
        if self.spec_fire_emits(now) {
            Debouncer { deadline: None, ..self }
        } else {
            self
        }
    }

    /// A fresh, disarmed debouncer with the given coalescing window.
    pub fn new(window_ms: u64) -> (d: Debouncer)
        ensures
            d == (Debouncer { window_ms, deadline: None::<u64> }),
    {
        Debouncer { window_ms, deadline: None }
    }

    /// Note one relevant filesystem event at time `now`. Returns whether
    /// this event armed the timer — only then must the caller schedule a
    /// wake-up at the new deadline; otherwise the event was absorbed into
    /// the already pending emission.
    pub fn note_event(&mut self, now: u64) -> (newly_armed: bool)
        ensures
            *final(self) == old(self).spec_note(now),
            newly_armed == !old(self).armed(),
    {
        match self.deadline {
            Some(_) => false,
            None => {
                let deadline = if now > u64::MAX - self.window_ms {
                    u64::MAX
                } else {
                    now + self.window_ms
                };
                self.deadline = Some(deadline);
                true
            },
        }
    }

    /// Note one raw filesystem event of kind `kind` at time `now`:
    /// irrelevant kinds are dropped, relevant ones are debounced as in
    /// [`Debouncer::note_event`].
    pub fn note_raw_event(&mut self, kind: EventKind, now: u64) -> (newly_armed: bool)
        ensures
            *final(self) == if spec_is_relevant(kind) {
                old(self).spec_note(now)
            } else {
                *old(self)
            },
            newly_armed == (spec_is_relevant(kind) && !old(self).armed()),
    {
        if is_relevant(kind) {
            self.note_event(now)
        } else {
            false
        }
    }

    /// Report that the clock has reached `now`. Returns whether one reload
    /// signal must be emitted now; emitting disarms the timer, so a burst
    /// yields one emission however many events it contained.
    pub fn fire(&mut self, now: u64) -> (emit: bool)
        ensures
            emit == old(self).spec_fire_emits(now),
            *final(self) == old(self).spec_fire_state(now),
    {
        match self.deadline {
            Some(deadline) => {
                if deadline <= now {
                    self.deadline = None;
                    true
                } else {
                    false
                }
            },
            None => false,
        }
    }
}

/// The state after noting a whole burst of relevant events, in order.
pub open spec fn spec_note_seq(d: Debouncer, times: Seq<u64>) -> Debouncer
    decreases times.len(),
{
    if times.len() == 0 {
        d
    } else {
        spec_note_seq(d.spec_note(times[0]), times.drop_first())
    }
}

/// While the timer is armed, further events change nothing at all.
pub proof fn lemma_armed_absorbs_all(d: Debouncer, times: Seq<u64>)
    requires
        d.armed(),
    ensures
        spec_note_seq(d, times) == d,
    decreases times.len(),
{
    if times.len() > 0 {
        lemma_armed_absorbs_all(d, times.drop_first());
    }
}

/// Coalescing law: a burst of relevant events hitting a disarmed debouncer
/// leaves exactly the state the first event alone would leave — every later
/// event of the burst is absorbed.
pub proof fn lemma_burst_coalesces(d: Debouncer, times: Seq<u64>)
    requires
        !d.armed(),
        times.len() >= 1,
    ensures
        spec_note_seq(d, times) == d.spec_note(times[0]),
{
    lemma_armed_absorbs_all(d.spec_note(times[0]), times.drop_first());
}

/// Coalescing law, end to end: however many relevant events a burst holds,
/// once the window that opened at the first event has passed, the timer
/// fires exactly once — the emission disarms the debouncer, so no further
/// emission happens until a new event arrives — and the one signal sent on
/// that emission reaches a subscriber that was registered and drained before
/// the burst exactly once.
pub proof fn lemma_burst_delivers_once(
    d: Debouncer,
    times: Seq<u64>,
    fire_time: u64,
    m: crate::fanout::FanoutModel,
    id: int,
)
    requires
        !d.armed(),
        times.len() >= 1,
        fire_time >= spec_sat_add(times[0], d.window_ms),
        m.wf(),
        m.sent < u64::MAX,
        0 <= id < m.subscribers(),
        m.pending(id) == 0,
    ensures
        spec_note_seq(d, times).spec_fire_emits(fire_time),
        forall|t: u64|
            !spec_note_seq(d, times).spec_fire_state(fire_time).spec_fire_emits(t),
        m.spec_send().spec_recv_outcome(id) == crate::fanout::RecvOutcome::Signal,
        m.spec_send().spec_recv_state(id).spec_recv_outcome(id)
            == crate::fanout::RecvOutcome::Empty,
{
    lemma_burst_coalesces(d, times);
    crate::fanout::lemma_single_send_single_delivery(m, id);
}

} // verus!
