//! The port binder: which port is tried next after a bind attempt.
//!
//! Binding itself is the caller's work. After each attempt the caller reports
//! how it went and is told whether to listen, to try the next port, or to
//! give up. Only "address in use" is retried, without a pause and without a
//! cap on the number of attempts.

use vstd::prelude::*;
use crate::text::{decimal, port_text};

verus! {

/// How one attempt to bind a port went.
#[derive(Clone, Copy, Debug, PartialEq, Eq, Structural)]
pub enum BindOutcome {
    /// The socket is bound.
    Bound,
    /// The address is already in use.
    AddrInUse,
    /// Any other failure.
    Failed,
}

/// What the caller does after one attempt.
#[derive(Clone, Copy, Debug, PartialEq, Eq, Structural)]
pub enum BindStep {
    /// Listen on the port that was bound.
    Listen(u16),
    /// Warn that `collided` is taken and try `next`.
    Retry { collided: u16, next: u16 },
    /// Startup is over: the port could not be bound for another reason.
    Abort(u16),
}

/// The step that follows an attempt on `port`.
pub open spec fn bind_step(port: u16, outcome: BindOutcome) -> BindStep {
    match outcome {
        BindOutcome::Bound => BindStep::Listen(port),
        BindOutcome::AddrInUse => BindStep::Retry { collided: port, next: (port + 1) as u16 },
        BindOutcome::Failed => BindStep::Abort(port),
    }
}

/// Decides the step that follows an attempt on `port`. There is no port
/// after 65535, so a collision on it has no next step.
pub fn next_bind_step(port: u16, outcome: BindOutcome) -> (step: BindStep)
    requires
        outcome == BindOutcome::AddrInUse ==> port < u16::MAX,
    ensures
        step == bind_step(port, outcome),
{
    match outcome {
        BindOutcome::Bound => BindStep::Listen(port),
        BindOutcome::AddrInUse => BindStep::Retry { collided: port, next: port + 1 },
        BindOutcome::Failed => BindStep::Abort(port),
    }
}

/// The warning logged for a port that is taken.
pub open spec fn collision_warning_text(port: u16) -> Seq<char> {
    "Port "@ + decimal(port as nat) + " is already in use"@
}

/// Words the warning logged for a port that is taken.
pub fn collision_warning(port: u16) -> (line: String)
    ensures
        line@ == collision_warning_text(port),
{
    let mut line = String::from_str("Port ");
    let digits = port_text(port);
    line.append(digits.as_str());
    line.append(" is already in use");
    line
}

/// Where the binder stands.
pub ghost enum BinderState {
    /// The port is about to be tried.
    Trying(u16),
    /// The port is bound and listened on.
    Listening(u16),
    /// Startup was aborted on the port.
    Aborted(u16),
}

/// A run of the binder: where it stands, and the ports it has warned about,
/// oldest first.
pub ghost struct BinderRun {
    pub state: BinderState,
    pub warned: Seq<u16>,
}

/// The run of a binder that starts on `start` and sees `outcomes` in turn.
/// Outcomes reported after the binder has settled change nothing.
pub open spec fn run_binder(start: u16, outcomes: Seq<BindOutcome>) -> BinderRun
    decreases outcomes.len(),
{
    if outcomes.len() == 0 {
        BinderRun { state: BinderState::Trying(start), warned: Seq::empty() }
    } else {
        let run = run_binder(start, outcomes.drop_last());
        match run.state {
            BinderState::Trying(port) => match bind_step(port, outcomes.last()) {
                BindStep::Listen(bound) => BinderRun {
                    state: BinderState::Listening(bound),
                    warned: run.warned,
                },
                BindStep::Retry { collided, next } => BinderRun {
                    state: BinderState::Trying(next),
                    warned: run.warned.push(collided),
                },
                BindStep::Abort(failed) => BinderRun {
                    state: BinderState::Aborted(failed),
                    warned: run.warned,
                },
            },
            _ => run,
        }
    }
}

/// `n` collisions in a row.
pub open spec fn collisions(n: nat) -> Seq<BindOutcome> {
    Seq::new(n, |i: int| BindOutcome::AddrInUse)
}

/// The `n` ports from `start` on, in ascending order.
pub open spec fn ports_from(start: u16, n: nat) -> Seq<u16> {
    Seq::new(n, |i: int| (start + i) as u16)
}

/// After `n` collisions in a row the binder has warned about the `n` ports
/// from `start` on and tries the port after them.
pub proof fn law_collisions_walk_upwards(start: u16, n: nat)
    requires
        start + n <= u16::MAX,
    ensures
        run_binder(start, collisions(n)).state == BinderState::Trying((start + n) as u16),
        run_binder(start, collisions(n)).warned == ports_from(start, n),
    decreases n,
{
    if n > 0 {
        let m = (n - 1) as nat;
        law_collisions_walk_upwards(start, m);
        assert(collisions(n).drop_last() =~= collisions(m));
    }
}

/// First free port: where the `n` ports from `start` on are taken and the
/// port after them is free, the binder ends up listening on that port and
/// has warned about exactly the `n` taken ports, in ascending order.
pub proof fn law_binder_finds_first_free_port(start: u16, n: nat)
    requires
        start + n <= u16::MAX,
    ensures
        run_binder(start, collisions(n).push(BindOutcome::Bound)).state == BinderState::Listening(
            (start + n) as u16,
        ),
        run_binder(start, collisions(n).push(BindOutcome::Bound)).warned == ports_from(start, n),
{
    law_collisions_walk_upwards(start, n);
    assert(collisions(n).push(BindOutcome::Bound).drop_last() =~= collisions(n));
}

} // verus!
