use live_server::bind::{BindError, BindOutcome, BindPlan, BindStep};

#[test]
fn fallback_binds_next_port() {
    // Requested port taken, switching on: retry lands on port + 1.
    let mut plan = BindPlan::new(9000, true, 2);
    let step = plan.on_outcome(BindOutcome::AddrInUse);
    assert_eq!(step, BindStep::Retry { port: 9001 });
    let step = plan.on_outcome(BindOutcome::Bound);
    assert_eq!(step, BindStep::Serve { port: 9001 });
}

#[test]
fn fallback_binds_second_port() {
    // Port + 1 also taken: the second fallback attempt serves on port + 2.
    let mut plan = BindPlan::new(9000, true, 2);
    assert_eq!(plan.on_outcome(BindOutcome::AddrInUse), BindStep::Retry { port: 9001 });
    assert_eq!(plan.on_outcome(BindOutcome::AddrInUse), BindStep::Retry { port: 9002 });
    assert_eq!(plan.on_outcome(BindOutcome::Bound), BindStep::Serve { port: 9002 });
}

#[test]
fn fallback_attempts_are_bounded() {
    // Two extra attempts allowed: the third "in use" answer is fatal.
    let mut plan = BindPlan::new(9000, true, 2);
    assert_eq!(plan.on_outcome(BindOutcome::AddrInUse), BindStep::Retry { port: 9001 });
    assert_eq!(plan.on_outcome(BindOutcome::AddrInUse), BindStep::Retry { port: 9002 });
    assert_eq!(
        plan.on_outcome(BindOutcome::AddrInUse),
        BindStep::Fail { error: BindError::PortsBusy { last_port: 9002 } },
    );
}

#[test]
fn no_fallback_when_switching_disabled() {
    // switch_port = false: a taken port fails at once, no retry happens,
    // whatever the attempt budget says.
    let mut plan = BindPlan::new(9000, false, 2);
    assert_eq!(
        plan.on_outcome(BindOutcome::AddrInUse),
        BindStep::Fail { error: BindError::PortsBusy { last_port: 9000 } },
    );
    // The plan did not move: a second attempt on the same port fails the same way.
    assert_eq!(
        plan.on_outcome(BindOutcome::AddrInUse),
        BindStep::Fail { error: BindError::PortsBusy { last_port: 9000 } },
    );
}

#[test]
fn other_failures_are_fatal_immediately() {
    let mut plan = BindPlan::new(9000, true, 2);
    assert_eq!(
        plan.on_outcome(BindOutcome::OtherError),
        BindStep::Fail { error: BindError::Rejected },
    );
}

#[test]
fn no_port_above_the_last_one() {
    // There is no port after 65535: even with attempts left, "in use" is fatal.
    let mut plan = BindPlan::new(u16::MAX, true, 2);
    assert_eq!(
        plan.on_outcome(BindOutcome::AddrInUse),
        BindStep::Fail { error: BindError::PortsBusy { last_port: u16::MAX } },
    );
}

#[test]
fn success_serves_requested_port() {
    let mut plan = BindPlan::new(8080, true, 2);
    assert_eq!(plan.on_outcome(BindOutcome::Bound), BindStep::Serve { port: 8080 });
}
