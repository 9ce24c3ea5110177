//! The live signal channel: tokio's broadcast channel behind a thin layer.
//!
//! At run time the delivery rules stated and proved in [`crate::fanout`] are
//! carried out by `tokio::sync::broadcast`, which this module wraps. What a
//! receive attempt on the live channel came back with is a plain value, and
//! everything the endpoint decides from it — reload, wait, or stop — is
//! verified code here; only the calls into tokio themselves are trusted.

use vstd::prelude::*;
use tokio::sync::broadcast;
use tokio::sync::broadcast::error::RecvError;
use tokio::sync::broadcast::error::TryRecvError;
use crate::debounce::Debouncer;
use crate::fanout::RecvOutcome;

verus! {

#[verifier::external_type_specification]
#[verifier::external_body]
#[verifier::reject_recursive_types(T)]
pub struct ExSender<T>(broadcast::Sender<T>);

#[verifier::external_type_specification]
#[verifier::external_body]
#[verifier::reject_recursive_types(T)]
pub struct ExReceiver<T>(broadcast::Receiver<T>);

#[verifier::external_type_specification]
pub struct ExTryRecvError(TryRecvError);

#[verifier::external_type_specification]
pub struct ExRecvError(RecvError);

/// Relies on tokio::sync::broadcast::channel: creates the channel and its
/// first receiving end. It panics when the capacity is zero or exceeds
/// `usize::MAX / 2`, so those capacities are excluded here.
#[verifier::external_body]
fn raw_channel(capacity: usize) -> (ends: (broadcast::Sender<()>, broadcast::Receiver<()>))
    requires
        1 <= capacity <= usize::MAX / 2,
{
    broadcast::channel(capacity)
}

/// Relies on tokio::sync::broadcast::Sender::subscribe: hands back a new
/// receiving end that observes only signals sent after this call.
#[verifier::external_body]
fn raw_subscribe(tx: &broadcast::Sender<()>) -> (rx: broadcast::Receiver<()>)
{
    tx.subscribe()
}

/// Relies on tokio::sync::broadcast::Sender::send: delivers one signal to
/// every receiving end currently subscribed, without ever blocking, and
/// reports how many there were; with none it reports an error, mapped to
/// zero here, and the signal simply goes unobserved.
#[verifier::external_body]
fn raw_send(tx: &broadcast::Sender<()>) -> (delivered: usize)
{
    match tx.send(()) {
        Ok(n) => n,
        Err(_) => 0,
    }
}

/// Relies on tokio::sync::broadcast::Receiver::try_recv: takes one pending
/// signal without waiting. `Lagged(n)` reports that `n >= 1` signals were
/// dropped because this receiving end fell further behind than the channel's
/// capacity; the receiver stays subscribed.
#[verifier::external_body]
fn raw_try_recv(rx: &mut broadcast::Receiver<()>) -> (r: Result<(), TryRecvError>)
    ensures
        r matches Err(TryRecvError::Lagged(n)) ==> n >= 1,
{
    rx.try_recv()
}

/// What the live-reload endpoint does next with its client connection.
#[derive(Clone, Copy, PartialEq, Eq, Structural, Debug)]
pub enum RelayStep {
    /// Push one reload notification downstream, then listen again.
    Reload,
    /// Nothing is pending: keep waiting for the next signal.
    Wait,
    /// The channel is gone (process shutdown): end this connection's task.
    Stop,
}

/// The endpoint's decision on a non-blocking receive attempt: a signal —
/// even one that arrives as a lag report, since then at least one real
/// change occurred — means reload; an empty buffer means keep waiting; a
/// closed channel ends the task.
pub open spec fn spec_step_of_try(r: Result<(), TryRecvError>) -> RelayStep {
    match r {
        Ok(_) => RelayStep::Reload,
        Err(TryRecvError::Lagged(_)) => RelayStep::Reload,
        Err(TryRecvError::Empty) => RelayStep::Wait,
        Err(TryRecvError::Closed) => RelayStep::Stop,
    }
}

/// The endpoint's decision on a suspending receive, which never reports an
/// empty buffer: a signal or a lag report means reload, a closed channel
/// ends the task.
pub open spec fn spec_step_of_wait(r: Result<(), RecvError>) -> RelayStep {
    match r {
        Ok(_) => RelayStep::Reload,
        Err(RecvError::Lagged(_)) => RelayStep::Reload,
        Err(RecvError::Closed) => RelayStep::Stop,
    }
}

/// Decide the endpoint's next move from a non-blocking receive attempt.
pub fn relay_step_try(r: Result<(), TryRecvError>) -> (step: RelayStep)
    ensures
        step == spec_step_of_try(r),
{
    match r {
        Ok(_) => RelayStep::Reload,
        Err(TryRecvError::Lagged(_)) => RelayStep::Reload,
        Err(TryRecvError::Empty) => RelayStep::Wait,
        Err(TryRecvError::Closed) => RelayStep::Stop,
    }
}

/// Decide the endpoint's next move from a suspending receive.
pub fn relay_step_wait(r: Result<(), RecvError>) -> (step: RelayStep)
    ensures
        step == spec_step_of_wait(r),
{
    match r {
        Ok(_) => RelayStep::Reload,
        Err(RecvError::Lagged(_)) => RelayStep::Reload,
        Err(RecvError::Closed) => RelayStep::Stop,
    }
}

/// What a non-blocking receive attempt on the live channel means in the
/// terms of [`crate::fanout`]: a signal, an empty buffer, or a lag report
/// with its count of dropped signals. A closed channel has no counterpart
/// there — the channel lives until process exit — so it maps to `None`.
pub open spec fn spec_outcome_of_try(r: Result<(), TryRecvError>) -> Option<RecvOutcome> {
    match r {
        Ok(_) => Some(RecvOutcome::Signal),
        Err(TryRecvError::Empty) => Some(RecvOutcome::Empty),
        Err(TryRecvError::Lagged(n)) => Some(RecvOutcome::Lagged { missed: n }),
        Err(TryRecvError::Closed) => None,
    }
}

/// Translate a non-blocking receive attempt into the model's outcome.
pub fn outcome_of_try(r: Result<(), TryRecvError>) -> (out: Option<RecvOutcome>)
    ensures
        out == spec_outcome_of_try(r),
{
    match r {
        Ok(_) => Some(RecvOutcome::Signal),
        Err(TryRecvError::Empty) => Some(RecvOutcome::Empty),
        Err(TryRecvError::Lagged(n)) => Some(RecvOutcome::Lagged { missed: n }),
        Err(TryRecvError::Closed) => None,
    }
}

/// Open the process-wide signal channel with the given per-receiver buffer
/// capacity, handing back the watcher's sending end and a first receiving
/// end. The capacity bounds keep the underlying channel from panicking.
pub fn signal_channel(capacity: usize) -> (ends: (broadcast::Sender<()>, broadcast::Receiver<()>))
    requires
        1 <= capacity <= usize::MAX / 2,
{
    raw_channel(capacity)
}

/// Hand a newly accepted client connection its own receiving end. Signals
/// sent before this call are never replayed to it.
pub fn subscribe(tx: &broadcast::Sender<()>) -> (rx: broadcast::Receiver<()>) {
    raw_subscribe(tx)
}

/// The watcher's timer step: report to the debouncer that the clock reached
/// `now`, and when that emits, publish one coalesced reload signal on the
/// live channel. Publishing blocks nobody and succeeds with zero receivers.
/// Returns whether a signal was published.
pub fn fire_and_publish(d: &mut Debouncer, now: u64, tx: &broadcast::Sender<()>) -> (published:
    bool)
    ensures
        published == old(d).spec_fire_emits(now),
        *final(d) == old(d).spec_fire_state(now),
{
    let emit = d.fire(now);
    if emit {
        raw_send(tx);
    }
    emit
}

/// One non-blocking poll of a connection's receiving end, decided as in
/// [`relay_step_try`]: whatever the live channel answers, the step is the
/// one `spec_step_of_try` assigns to that answer, so a lag report still
/// comes back as a reload and never as a stall.
pub fn poll_step(rx: &mut broadcast::Receiver<()>) -> (step: RelayStep) {
    let r = raw_try_recv(rx);
    relay_step_try(r)
}

/// Overflow recovery law, live side: a receive attempt that comes back as a
/// lag report — however many signals were dropped — is answered with a
/// reload, on the non-blocking and on the suspending path alike; it never
/// stops the connection or stalls it.
pub proof fn lemma_lagged_still_reloads(n: u64)
    ensures
        spec_step_of_try(Err(TryRecvError::Lagged(n))) == RelayStep::Reload,
        spec_step_of_wait(Err(RecvError::Lagged(n))) == RelayStep::Reload,
{
}

} // verus!
