//! The benchmark harness: deadline handling, the unified run loop over
//! the handshake channel, and the metrics computed from the counters a
//! run actually reached.

use crate::handshake::ChannelState;
use crate::handshake::InitiatorAction;
use crate::handshake::ResponderAction;
use crate::handshake::initiator_decide;
use crate::handshake::responder_decide;
use vstd::prelude::*;

verus! {

/// Nanoseconds in one second, for turning a timeout into a deadline.
pub const NANOS_PER_SEC: u64 = 1_000_000_000;

/// Turns a relative timeout in whole seconds into an absolute deadline,
/// given the current time as nanoseconds on the caller's clock. The
/// deadline is computed once, before the run starts, and never moves.
pub fn compute_deadline(now_ns: u128, timeout_secs: u64) -> (d: u128)
    requires
        now_ns + timeout_secs * (NANOS_PER_SEC as int) <= u128::MAX,
    ensures
        d == now_ns + timeout_secs * (NANOS_PER_SEC as int),
{
    now_ns + (timeout_secs as u128) * (NANOS_PER_SEC as u128)
}

/// The one deadline test both roles use on every spin iteration: the
/// deadline has passed exactly when the clock has reached it.
pub fn deadline_passed(now_ns: u128, deadline_ns: u128) -> (b: bool)
    ensures
        b == (now_ns >= deadline_ns),
{
    now_ns >= deadline_ns
}

/// How a run ended.
#[derive(Clone, Copy, Debug, PartialEq, Eq, Structural)]
pub enum Outcome {
    /// `s1` reached the target before any deadline.
    Completed,
    /// The deadline was observed first; the run stopped early.
    TimedOut,
}

/// The counters a run actually reached, and how it ended.
#[derive(Clone, Copy, Debug, PartialEq, Eq, Structural)]
pub struct RunResult {
    pub channel: ChannelState,
    pub outcome: Outcome,
}

/// How many full rounds a run performs: the target, unless a round
/// budget cuts it short first.
pub open spec fn rounds_run(target: u64, budget: Option<u64>) -> int {
    match budget {
        None => target as int,
        Some(b) => if b < target {
            b as int
        } else {
            target as int
        },
    }
}

/// Exactly what a finished run looks like: the invariant holds, the
/// responder has caught up, `s1` equals the number of rounds the
/// configuration allows, and the run completed if and only if the
/// target was reached.
pub open spec fn run_matches(r: RunResult, target: u64, budget: Option<u64>) -> bool {
    &&& r.channel.wf()
    &&& r.channel.s1 == r.channel.s2
    &&& r.channel.s1 == rounds_run(target, budget)
    &&& (r.outcome == Outcome::Completed <==> r.channel.s1 == target)
}

/// Drives the handshake to its stop condition with both roles
/// interleaved on one thread, every branch taken through the same
/// decision functions the live two-thread benchmark uses. The two
/// modes are one loop: a fixed-count run passes no budget, a bounded
/// run passes the number of rounds its deadline admits, checked on
/// every iteration.
pub fn run_alternation(target: u64, budget: Option<u64>) -> (r: RunResult)
    ensures
        run_matches(r, target, budget),
{
    let mut ch = ChannelState::new();
    let mut expected_s2: u64 = 0;
    let mut rounds: u64 = 0;
    loop
        invariant
            ch.wf(),
            ch.s1 == ch.s2,
            ch.s1 == rounds,
            expected_s2 == ch.s1,
            rounds <= target,
            budget matches Some(b) ==> rounds <= b,
        decreases target - rounds,
    {
        let timed_out = match budget {
            None => false,
            Some(b) => rounds >= b,
        };
        let action = initiator_decide(target, expected_s2, ch.s1, ch.s2, timed_out);
        match action {
            InitiatorAction::Complete => {
                return RunResult { channel: ch, outcome: Outcome::Completed };
            },
            InitiatorAction::TimeOut => {
                return RunResult { channel: ch, outcome: Outcome::TimedOut };
            },
            InitiatorAction::WaitForResponder => {
                // In this interleaving the responder has always caught
                // up by the time the initiator looks again.
                proof {
                    assert(false);
                }
            },
            InitiatorAction::Advance => {
                ch.initiator_advance();
                expected_s2 = ch.s1;
                let reply = responder_decide(ch.s2, ch.s1, false);
                match reply {
                    ResponderAction::Advance => {
                        ch.responder_advance();
                    },
                    // With no deadline pending mid-round and `s1` just
                    // moved, the responder's only decision is to
                    // advance.
                    ResponderAction::TimeOut => {
                        proof {
                            assert(false);
                        }
                    },
                    ResponderAction::WaitForInitiator => {
                        proof {
                            assert(false);
                        }
                    },
                }
                rounds = rounds + 1;
            },
        }
    }
}

/// Latency and throughput figures, defined only when at least one
/// operation completed.
#[derive(Clone, Copy, Debug, PartialEq, Eq, Structural)]
pub struct Rates {
    /// Elapsed nanoseconds divided by completed operations.
    pub ns_per_op: u128,
    /// Completed operations scaled to one second of elapsed time.
    pub ops_per_sec: u128,
}

/// Everything the benchmark reports, computed once, after the run,
/// from the counters it actually reached — so the figures stay
/// truthful when a deadline cut the run short of its target.
#[derive(Clone, Copy, Debug, PartialEq, Eq)]
pub struct Report {
    /// Wall-clock duration of the run, in nanoseconds.
    pub elapsed_ns: u128,
    /// The counters at the end of the run.
    pub final_s1: u64,
    pub final_s2: u64,
    /// Twice the final `s1`: each round is one `s1` increment plus the
    /// matching `s2` increment.
    pub completed_ops: u128,
    /// `None` exactly when no operation completed — the degenerate
    /// outcome of an expired deadline, reported as a sentinel rather
    /// than dividing by zero.
    pub rates: Option<Rates>,
}

/// Computes the report from the final counters and the measured
/// duration. Rounds actually completed are authoritative: the
/// configured target plays no part here.
pub fn compute_report(final_s1: u64, final_s2: u64, elapsed_ns: u128) -> (r: Report)
    requires
        elapsed_ns > 0,
    ensures
        r.elapsed_ns == elapsed_ns,
        r.final_s1 == final_s1,
        r.final_s2 == final_s2,
        r.completed_ops == 2 * final_s1,
        final_s1 == 0 <==> r.rates is None,
        final_s1 > 0 ==> (r.rates matches Some(rt) && rt.ns_per_op == elapsed_ns as int / (
        r.completed_ops as int) && rt.ops_per_sec == (r.completed_ops * (NANOS_PER_SEC as int)) / (
        elapsed_ns as int)),
{
    let completed_ops: u128 = 2 * (final_s1 as u128);
    let rates: Option<Rates> = if completed_ops > 0 {
        let ns_per_op: u128 = elapsed_ns / completed_ops;
        proof {
            assert(completed_ops * (NANOS_PER_SEC as u128) <= u128::MAX) by (nonlinear_arith)
                requires
                    completed_ops <= 2 * (u64::MAX as u128),
            ;
        }
        let ops_per_sec: u128 = (completed_ops * (NANOS_PER_SEC as u128)) / elapsed_ns;
        Some(Rates { ns_per_op, ops_per_sec })
    } else {
        None
    };
    Report { elapsed_ns, final_s1, final_s2, completed_ops, rates }
}

/// Law: a run is a function of its configuration alone. Two runs with
/// the same target and the same budget — fresh counters each time, no
/// state carried across — end with the same counters and the same
/// outcome.
pub proof fn lemma_run_deterministic(
    a: RunResult,
    b: RunResult,
    target: u64,
    budget: Option<u64>,
)
    requires
        run_matches(a, target, budget),
        run_matches(b, target, budget),
    ensures
        a.channel == b.channel,
        a.outcome == b.outcome,
{
    match a.outcome {
        Outcome::Completed => {
            assert(b.outcome == Outcome::Completed);
        },
        Outcome::TimedOut => {
            match b.outcome {
                Outcome::Completed => {
                    assert(false);
                },
                Outcome::TimedOut => {
                },
            }
        },
    }
}

/// Law: a generous deadline changes nothing. A bounded run whose round
/// budget covers the whole target ends exactly as the fixed-count run
/// does: same counters, and both complete.
pub proof fn lemma_generous_budget_like_fixed(
    bounded: RunResult,
    fixed: RunResult,
    target: u64,
    budget: u64,
)
    requires
        budget >= target,
        run_matches(bounded, target, Some(budget)),
        run_matches(fixed, target, None),
    ensures
        bounded.channel == fixed.channel,
        bounded.outcome == Outcome::Completed,
        fixed.outcome == Outcome::Completed,
        bounded.outcome == fixed.outcome,
{
    assert(bounded.channel.s1 == target);
    assert(fixed.channel.s1 == target);
}

} // verus!
