//! The live channel layer, run against the real tokio broadcast channel.
//! Only the synchronous surface is needed: sends, subscriptions and
//! non-blocking receives happen without a runtime.

use live_server::channel::{
    fire_and_publish, outcome_of_try, poll_step, relay_step_try, relay_step_wait, signal_channel,
    subscribe, RelayStep,
};
use live_server::debounce::Debouncer;
use live_server::fanout::{Fanout, RecvOutcome};
use tokio::sync::broadcast::error::{RecvError, TryRecvError};

#[test]
fn live_channel_delivers_one_reload() {
    let (tx, _first) = signal_channel(16);
    let mut rx = subscribe(&tx);

    let mut d = Debouncer::new(100);
    d.note_event(0);
    assert!(fire_and_publish(&mut d, 100, &tx));

    assert_eq!(poll_step(&mut rx), RelayStep::Reload);
    assert_eq!(poll_step(&mut rx), RelayStep::Wait);
}

#[test]
fn live_channel_does_not_replay() {
    let (tx, _first) = signal_channel(16);
    let mut d = Debouncer::new(10);
    d.note_event(0);
    assert!(fire_and_publish(&mut d, 10, &tx));

    // Subscribed only after the signal was published: nothing arrives.
    let mut late = subscribe(&tx);
    assert_eq!(poll_step(&mut late), RelayStep::Wait);
}

#[test]
fn live_channel_without_emission_publishes_nothing() {
    let (tx, _first) = signal_channel(16);
    let mut rx = subscribe(&tx);
    let mut d = Debouncer::new(100);
    d.note_event(0);
    // The window has not passed: nothing is published.
    assert!(!fire_and_publish(&mut d, 50, &tx));
    assert_eq!(poll_step(&mut rx), RelayStep::Wait);
}

#[test]
fn live_lag_is_a_reload_not_a_stall() {
    let (tx, _first) = signal_channel(1);
    let mut rx = subscribe(&tx);
    for _ in 0..3 {
        tx.send(()).unwrap();
    }
    // The receiver fell two signals behind a one-slot buffer: still a reload.
    assert_eq!(poll_step(&mut rx), RelayStep::Reload);
    // The signal still buffered follows, then the channel is drained.
    assert_eq!(poll_step(&mut rx), RelayStep::Reload);
    assert_eq!(poll_step(&mut rx), RelayStep::Wait);
}

#[test]
fn live_lag_count_matches_the_model() {
    // The same story told twice: three sends into a one-slot buffer, then a
    // receive. The live channel and the model report the same lag.
    let (tx, _first) = signal_channel(1);
    let mut rx = subscribe(&tx);
    for _ in 0..3 {
        tx.send(()).unwrap();
    }
    let live = outcome_of_try(rx.try_recv());

    let mut f = Fanout::new(1);
    let id = f.subscribe();
    for _ in 0..3 {
        f.send();
    }
    let modelled = f.recv(id);

    assert_eq!(live, Some(RecvOutcome::Lagged { missed: 2 }));
    assert_eq!(modelled, RecvOutcome::Lagged { missed: 2 });
}

#[test]
fn live_fanout_reaches_all_three_independently() {
    let (tx, _first) = signal_channel(16);
    let mut a = subscribe(&tx);
    let mut b = subscribe(&tx);
    let mut c = subscribe(&tx);
    tx.send(()).unwrap();
    assert_eq!(poll_step(&mut a), RelayStep::Reload);
    assert_eq!(poll_step(&mut b), RelayStep::Reload);
    assert_eq!(poll_step(&mut c), RelayStep::Reload);
    // Receiver `a` stops draining; the others are not blocked or starved.
    tx.send(()).unwrap();
    tx.send(()).unwrap();
    assert_eq!(poll_step(&mut b), RelayStep::Reload);
    assert_eq!(poll_step(&mut b), RelayStep::Reload);
    assert_eq!(poll_step(&mut b), RelayStep::Wait);
    assert_eq!(poll_step(&mut c), RelayStep::Reload);
    assert_eq!(poll_step(&mut c), RelayStep::Reload);
}

#[test]
fn closed_channel_stops_the_endpoint() {
    let (tx, first) = signal_channel(16);
    let mut rx = subscribe(&tx);
    drop(tx);
    drop(first);
    assert_eq!(poll_step(&mut rx), RelayStep::Stop);
}

#[test]
fn relay_decisions_cover_every_answer() {
    assert_eq!(relay_step_try(Ok(())), RelayStep::Reload);
    assert_eq!(relay_step_try(Err(TryRecvError::Lagged(7))), RelayStep::Reload);
    assert_eq!(relay_step_try(Err(TryRecvError::Empty)), RelayStep::Wait);
    assert_eq!(relay_step_try(Err(TryRecvError::Closed)), RelayStep::Stop);

    assert_eq!(relay_step_wait(Ok(())), RelayStep::Reload);
    assert_eq!(relay_step_wait(Err(RecvError::Lagged(3))), RelayStep::Reload);
    assert_eq!(relay_step_wait(Err(RecvError::Closed)), RelayStep::Stop);
}

#[test]
fn try_recv_outcomes_translate_to_the_model() {
    assert_eq!(outcome_of_try(Ok(())), Some(RecvOutcome::Signal));
    assert_eq!(outcome_of_try(Err(TryRecvError::Empty)), Some(RecvOutcome::Empty));
    assert_eq!(
        outcome_of_try(Err(TryRecvError::Lagged(9))),
        Some(RecvOutcome::Lagged { missed: 9 }),
    );
    assert_eq!(outcome_of_try(Err(TryRecvError::Closed)), None);
}
