//! The whole startup-to-reload story, told over the core types: bind the
//! port, fix the configuration, watch for changes, and push exactly one
//! reload per real change to each connected client.

use live_server::bind::{BindOutcome, BindPlan, BindStep};
use live_server::config::ServeConfig;
use live_server::debounce::{Debouncer, EventKind};
use live_server::fanout::{Fanout, RecvOutcome};

#[test]
fn config_is_fixed_before_tasks_start() {
    let c = ServeConfig::new(String::from("127.0.0.1"), 9000, String::from("./site"));
    assert_eq!(c.host, "127.0.0.1");
    assert_eq!(c.port, 9000);
    assert_eq!(c.root, "./site");
    // The startup sequencer fell back by one port: the effective port is
    // fixed by replacing the configuration, nothing else moves.
    let c = c.with_effective_port(9001);
    assert_eq!(c.host, "127.0.0.1");
    assert_eq!(c.port, 9001);
    assert_eq!(c.root, "./site");
}

#[test]
fn listen_modify_reload_then_quiet_second_client() {
    // Startup: the requested port is free.
    let requested = ServeConfig::new(String::from("127.0.0.1"), 9000, String::from("./site"));
    let mut plan = BindPlan::new(requested.port, true, 2);
    let effective = match plan.on_outcome(BindOutcome::Bound) {
        BindStep::Serve { port } => requested.with_effective_port(port),
        other => panic!("startup failed: {:?}", other),
    };
    assert_eq!(effective.port, 9000);

    // The watcher and the broadcaster start; one client connects.
    let mut watcher = Debouncer::new(100);
    let mut hub = Fanout::new(16);
    let client = hub.subscribe();

    // An editor saves a file under ./site: write to a temporary file, then
    // rename — two raw events, one logical change.
    watcher.note_raw_event(EventKind::Create, 1000);
    watcher.note_raw_event(EventKind::Rename, 1005);
    if watcher.fire(1100) {
        hub.send();
    }

    // The client receives exactly one reload notification.
    assert_eq!(hub.recv(client), RecvOutcome::Signal);
    assert_eq!(hub.recv(client), RecvOutcome::Empty);

    // A second client connects afterwards: it receives nothing until the
    // next real change.
    let second = hub.subscribe();
    assert_eq!(hub.recv(second), RecvOutcome::Empty);

    watcher.note_raw_event(EventKind::Modify, 2000);
    if watcher.fire(2100) {
        hub.send();
    }
    assert_eq!(hub.recv(second), RecvOutcome::Signal);
    assert_eq!(hub.recv(client), RecvOutcome::Signal);
}
