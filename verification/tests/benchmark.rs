use pingpong::affinity::affinity_outcome;
use pingpong::affinity::AffinityError;
use pingpong::handshake::initiator_decide;
use pingpong::handshake::responder_decide;
use pingpong::handshake::ChannelState;
use pingpong::handshake::InitiatorAction;
use pingpong::handshake::ResponderAction;
use pingpong::harness::compute_deadline;
use pingpong::harness::compute_report;
use pingpong::harness::deadline_passed;
use pingpong::harness::run_alternation;
use pingpong::harness::Outcome;

#[test]
fn fresh_channel_starts_at_zero() {
    let ch = ChannelState::new();
    assert_eq!(ch.s1, 0);
    assert_eq!(ch.s2, 0);
}

#[test]
fn one_round_of_advances() {
    let mut ch = ChannelState::new();
    ch.initiator_advance();
    assert_eq!(ch.s1, 1);
    assert_eq!(ch.s2, 0);
    ch.responder_advance();
    assert_eq!(ch.s1, 1);
    assert_eq!(ch.s2, 1);
}

#[test]
fn initiator_completes_at_target() {
    assert_eq!(initiator_decide(10, 10, 10, 10, false), InitiatorAction::Complete);
    // A met target completes even under an expired deadline.
    assert_eq!(initiator_decide(10, 10, 10, 10, true), InitiatorAction::Complete);
}

#[test]
fn initiator_times_out_below_target() {
    assert_eq!(initiator_decide(10, 3, 3, 3, true), InitiatorAction::TimeOut);
}

#[test]
fn initiator_waits_for_responder() {
    assert_eq!(initiator_decide(10, 4, 4, 3, false), InitiatorAction::WaitForResponder);
}

#[test]
fn initiator_advances_when_caught_up() {
    assert_eq!(initiator_decide(10, 3, 3, 3, false), InitiatorAction::Advance);
}

#[test]
fn responder_times_out() {
    assert_eq!(responder_decide(5, 5, true), ResponderAction::TimeOut);
    assert_eq!(responder_decide(5, 6, true), ResponderAction::TimeOut);
}

#[test]
fn responder_waits_until_s1_moves() {
    assert_eq!(responder_decide(5, 5, false), ResponderAction::WaitForInitiator);
}

#[test]
fn responder_advances_on_change() {
    assert_eq!(responder_decide(5, 6, false), ResponderAction::Advance);
}

#[test]
fn fixed_run_reaches_target() {
    let r = run_alternation(1000, None);
    assert_eq!(r.channel.s1, 1000);
    assert_eq!(r.channel.s2, 1000);
    assert_eq!(r.outcome, Outcome::Completed);
}

#[test]
fn fixed_run_report_is_positive() {
    // Target 1000 over five milliseconds: every reported figure is
    // exact and strictly positive.
    let r = run_alternation(1000, None);
    let report = compute_report(r.channel.s1, r.channel.s2, 5_000_000);
    assert_eq!(report.final_s1, 1000);
    assert_eq!(report.completed_ops, 2000);
    let rates = report.rates.unwrap();
    assert_eq!(rates.ns_per_op, 2500);
    assert!(rates.ns_per_op > 0);
    assert_eq!(rates.ops_per_sec, 400_000);
    assert!(rates.ops_per_sec > 0);
}

#[test]
fn expired_deadline_stops_at_once() {
    // A budget of zero rounds against a very large target: the run
    // stops immediately with nothing completed.
    let r = run_alternation(500_000_000, Some(0));
    assert_eq!(r.channel.s1, 0);
    assert_eq!(r.channel.s2, 0);
    assert_eq!(r.outcome, Outcome::TimedOut);
    let report = compute_report(r.channel.s1, r.channel.s2, 123);
    assert_eq!(report.completed_ops, 0);
    // The sentinel: no rates are computed, so no division happens.
    assert!(report.rates.is_none());
}

#[test]
fn short_deadline_keeps_partial_rounds() {
    let r = run_alternation(1000, Some(7));
    assert_eq!(r.channel.s1, 7);
    assert_eq!(r.channel.s2, 7);
    assert_eq!(r.outcome, Outcome::TimedOut);
}

#[test]
fn generous_deadline_matches_fixed_mode() {
    let bounded = run_alternation(10, Some(1_000_000));
    let fixed = run_alternation(10, None);
    assert_eq!(bounded.channel, fixed.channel);
    assert_eq!(bounded.outcome, fixed.outcome);
    assert_eq!(bounded.outcome, Outcome::Completed);
    let report = compute_report(bounded.channel.s1, bounded.channel.s2, 40_000);
    assert_eq!(report.completed_ops, 20);
}

#[test]
fn repeated_runs_are_identical() {
    // Counters are scoped to the run: a second run starts fresh and
    // ends exactly where the first did.
    let first = run_alternation(42, Some(100));
    let second = run_alternation(42, Some(100));
    assert_eq!(first.channel, second.channel);
    assert_eq!(first.outcome, second.outcome);
}

#[test]
fn report_is_internally_consistent() {
    // Completed operations are always twice the final s1, target or
    // no target -- also when a run stopped mid-round with s1 one
    // ahead of s2.
    let report = compute_report(7, 7, 1_000_000);
    assert_eq!(report.completed_ops, 2 * u128::from(report.final_s1));
    let mid_round = compute_report(8, 7, 1_000_000);
    assert_eq!(mid_round.completed_ops, 16);
    assert_eq!(mid_round.final_s1, 8);
    assert_eq!(mid_round.final_s2, 7);
}

#[test]
fn report_exact_rates() {
    let report = compute_report(1000, 1000, 2_000_000);
    let rates = report.rates.unwrap();
    // 2_000_000 ns over 2000 ops.
    assert_eq!(rates.ns_per_op, 1000);
    // 2000 ops scaled to one second.
    assert_eq!(rates.ops_per_sec, 1_000_000);
    assert_eq!(report.elapsed_ns, 2_000_000);
}

#[test]
fn deadline_arithmetic() {
    assert_eq!(compute_deadline(1000, 2), 1000 + 2_000_000_000);
    assert_eq!(compute_deadline(0, 0), 0);
}

#[test]
fn deadline_check_is_inclusive() {
    assert!(!deadline_passed(999, 1000));
    assert!(deadline_passed(1000, 1000));
    assert!(deadline_passed(1001, 1000));
}

#[test]
fn affinity_success_is_ok() {
    assert_eq!(affinity_outcome(0), Ok(()));
}

#[test]
fn affinity_rejection_carries_the_code() {
    // An out-of-range core index comes back from the OS as a nonzero
    // code; it must surface as an affinity error, never be ignored.
    assert_eq!(affinity_outcome(22), Err(AffinityError::Os { code: 22 }));
    assert_eq!(affinity_outcome(-1), Err(AffinityError::Os { code: -1 }));
}
