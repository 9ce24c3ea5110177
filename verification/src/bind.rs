//! Startup/bind sequencing: the retry-on-port-collision policy.
//!
//! Binding the listening socket is the one piece of startup that can be
//! retried: when the requested port is taken and port switching is enabled,
//! the next port is tried, up to a bounded number of extra attempts. The
//! policy itself is a small state machine over plain values; the caller
//! performs each actual bind and reports its outcome here.

use vstd::prelude::*;

verus! {

/// What one attempt to bind the listening socket reported.
#[derive(Clone, Copy, PartialEq, Eq, Structural, Debug)]
pub enum BindOutcome {
    /// The socket was bound on the candidate port.
    Bound,
    /// The candidate port is already taken by another listener.
    AddrInUse,
    /// The bind failed for any other reason (permission denied, bad address, ...).
    OtherError,
}

/// Why startup gave up on acquiring a listening socket. Fatal: when binding
/// fails, neither the watcher nor the server is started.
#[derive(Clone, Copy, PartialEq, Eq, Structural, Debug)]
pub enum BindError {
    /// The requested port, and every fallback port the policy allowed,
    /// is already taken. Carries the last port that was tried.
    PortsBusy { last_port: u16 },
    /// A bind attempt failed for a reason other than the address being in
    /// use; such failures are never retried.
    Rejected,
}

/// The move to make after one bind attempt.
#[derive(Clone, Copy, PartialEq, Eq, Structural, Debug)]
pub enum BindStep {
    /// The socket is bound: this is the effective port for the rest of the
    /// process lifetime.
    Serve { port: u16 },
    /// Attempt a bind on this port next.
    Retry { port: u16 },
    /// Give up with this error.
    Fail { error: BindError },
}

/// The retry-on-port-collision startup policy: try the requested port, then
/// successive ports (`port + 1`, `port + 2`, ...), up to `remaining` extra
/// attempts, and only while `switch_port` is enabled.
pub struct BindPlan {
    /// The port the next bind attempt should use.
    pub candidate: u16,
    /// How many fallback attempts are still allowed.
    pub remaining: u8,
    /// Whether falling back to another port is allowed at all.
    pub switch_port: bool,
}

impl BindPlan {
    /// Whether this attempt's `AddrInUse` may be answered with a retry:
    /// switching is on, attempts remain, and a next port exists.
    pub open spec fn spec_may_retry(self) -> bool {
        self.switch_port && self.remaining > 0 && self.candidate < u16::MAX
    }

    /// The step that answers `outcome` on this plan.
    pub open spec fn spec_step_result(self, outcome: BindOutcome) -> BindStep {
        match outcome {
            BindOutcome::Bound => BindStep::Serve { port: self.candidate },
            BindOutcome::OtherError => BindStep::Fail { error: BindError::Rejected },
            BindOutcome::AddrInUse => if self.spec_may_retry() {
                BindStep::Retry { port: (self.candidate + 1) as u16 }
            } else {
                BindStep::Fail { error: BindError::PortsBusy { last_port: self.candidate } }
            },
        }
    }

    /// The plan left behind after answering `outcome`: only a retry moves it.
    pub open spec fn spec_step_state(self, outcome: BindOutcome) -> BindPlan {
        if outcome == BindOutcome::AddrInUse && self.spec_may_retry() {
            BindPlan {
                candidate: (self.candidate + 1) as u16,
                remaining: (self.remaining - 1) as u8,
                switch_port: self.switch_port,
            }
        } else {
            self
        }
    }

    /// A fresh plan: the first attempt targets the requested port, with
    /// `max_retries` fallback attempts allowed when `switch_port` is set.
    pub fn new(port: u16, switch_port: bool, max_retries: u8) -> (plan: BindPlan)
        ensures
            plan == (BindPlan { candidate: port, remaining: max_retries, switch_port }),
    {
        BindPlan { candidate: port, remaining: max_retries, switch_port }
    }

    /// Answer the outcome of the bind attempt on `self.candidate`.
    ///
    /// Success serves on the candidate port; a non-"in use" failure is fatal
    /// at once; "address in use" retries on the next port exactly when
    /// switching is enabled, attempts remain and a next port exists, and is
    /// fatal otherwise.
    pub fn on_outcome(&mut self, outcome: BindOutcome) -> (step: BindStep)
        ensures
            step == old(self).spec_step_result(outcome),
            *final(self) == old(self).spec_step_state(outcome),
    {
        match outcome {
            BindOutcome::Bound => BindStep::Serve { port: self.candidate },
            BindOutcome::OtherError => BindStep::Fail { error: BindError::Rejected },
            BindOutcome::AddrInUse => {
                if self.switch_port && self.remaining > 0 && self.candidate < u16::MAX {
                    self.candidate = self.candidate + 1;
                    self.remaining = self.remaining - 1;
                    BindStep::Retry { port: self.candidate }
                } else {
                    BindStep::Fail { error: BindError::PortsBusy { last_port: self.candidate } }
                }
            },
        }
    }
}

/// Port fallback law, with switching enabled: when the requested port P is
/// taken, the plan retries on P+1; if P+1 is free the sequencer serves on
/// P+1, and if P+1 is also taken it retries on P+2 and serves there once
/// free. Needs at least two fallback attempts and two ports above P.
pub proof fn lemma_port_fallback(p: BindPlan)
    requires
        p.switch_port,
        p.remaining >= 2,
        p.candidate + 2 <= u16::MAX,
    ensures
        p.spec_step_result(BindOutcome::AddrInUse)
            == (BindStep::Retry { port: (p.candidate + 1) as u16 }),
        p.spec_step_state(BindOutcome::AddrInUse).spec_step_result(BindOutcome::Bound)
            == (BindStep::Serve { port: (p.candidate + 1) as u16 }),
        p.spec_step_state(BindOutcome::AddrInUse).spec_step_result(BindOutcome::AddrInUse)
            == (BindStep::Retry { port: (p.candidate + 2) as u16 }),
        p.spec_step_state(BindOutcome::AddrInUse)
            .spec_step_state(BindOutcome::AddrInUse)
            .spec_step_result(BindOutcome::Bound)
            == (BindStep::Serve { port: (p.candidate + 2) as u16 }),
{
}

/// Port fallback law, with switching disabled: a taken port fails at once
/// with the "ports busy" error, and the plan does not move — no fallback
/// attempt happens, whatever the attempt budget.
pub proof fn lemma_no_fallback_when_disabled(p: BindPlan)
    requires
        !p.switch_port,
    ensures
        p.spec_step_result(BindOutcome::AddrInUse)
            == (BindStep::Fail { error: BindError::PortsBusy { last_port: p.candidate } }),
        p.spec_step_state(BindOutcome::AddrInUse) == p,
{
}

/// Any failure other than "address in use" is fatal immediately, even with
/// switching enabled and attempts remaining.
pub proof fn lemma_other_error_is_fatal(p: BindPlan)
    ensures
        p.spec_step_result(BindOutcome::OtherError)
            == (BindStep::Fail { error: BindError::Rejected }),
        p.spec_step_state(BindOutcome::OtherError) == p,
{
}

} // verus!
