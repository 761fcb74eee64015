//! The handshake channel: two shared monotonically increasing counters
//! and the strict alternation protocol that advances them.
//!
//! The initiator increments `s1` only when the responder has caught up
//! (`s1 == s2`); the responder increments `s2` only when the initiator
//! is one ahead (`s1 == s2 + 1`). Under that discipline the counters
//! satisfy `0 <= s1 - s2 <= 1` at every observable instant, and both
//! only ever grow.

use vstd::prelude::*;

verus! {

/// The entire shared state of one benchmark run: the two counters.
///
/// In the live benchmark each counter is an atomic word, written by
/// exactly one of the two threads and read by both; this struct is the
/// protocol-level picture of that pair, used both to drive a run and to
/// state the protocol's laws.
#[derive(Clone, Copy, Debug, PartialEq, Eq, Structural)]
pub struct ChannelState {
    /// Advanced by the initiator.
    pub s1: u64,
    /// Advanced by the responder; never leads `s1`.
    pub s2: u64,
}

impl ChannelState {
    /// The channel invariant: `s2` never leads `s1`, and `s1` leads by
    /// at most one increment.
    pub open spec fn wf(self) -> bool {
        self.s2 <= self.s1 && self.s1 - self.s2 <= 1
    }

    /// The initiator may advance: the responder has caught up.
    pub open spec fn initiator_enabled(self) -> bool {
        self.s1 == self.s2 && self.s1 < u64::MAX
    }

    /// The responder may advance: the initiator is one ahead.
    pub open spec fn responder_enabled(self) -> bool {
        self.s1 == self.s2 + 1
    }

    /// A fresh channel: both counters start at zero.
    pub fn new() -> (c: ChannelState)
        ensures
            c.s1 == 0,
            c.s2 == 0,
            c.wf(),
    {
        ChannelState { s1: 0, s2: 0 }
    }

    /// One initiator half-round: increment `s1` once the responder has
    /// caught up. Preserves the invariant and never moves `s2`.
    pub fn initiator_advance(&mut self)
        requires
            old(self).initiator_enabled(),
        ensures
            final(self).s1 == old(self).s1 + 1,
            final(self).s2 == old(self).s2,
            final(self).wf(),
            is_step(*old(self), *final(self)),
    {
        self.s1 = self.s1 + 1;
    }

    /// One responder half-round: increment `s2` once `s1` has moved
    /// ahead. Preserves the invariant and never moves `s1`.
    pub fn responder_advance(&mut self)
        requires
            old(self).responder_enabled(),
        ensures
            final(self).s1 == old(self).s1,
            final(self).s2 == old(self).s2 + 1,
            final(self).wf(),
            final(self).s1 == final(self).s2,
            is_step(*old(self), *final(self)),
    {
        self.s2 = self.s2 + 1;
    }
}

/// One protocol step: either the initiator or the responder fires its
/// enabled transition; nothing else ever touches the counters.
pub open spec fn is_step(pre: ChannelState, post: ChannelState) -> bool {
    ||| (pre.initiator_enabled() && post.s1 == pre.s1 + 1 && post.s2 == pre.s2)
    ||| (pre.responder_enabled() && post.s1 == pre.s1 && post.s2 == pre.s2 + 1)
}

/// A run of the protocol, recorded as the sequence of states it passes
/// through: it starts from the fresh channel and each state follows
/// from its predecessor by one protocol step.
pub open spec fn is_trace(tr: Seq<ChannelState>) -> bool {
    &&& tr.len() > 0
    &&& tr[0].s1 == 0
    &&& tr[0].s2 == 0
    &&& forall|i: int| 0 <= i < tr.len() - 1 ==> #[trigger] is_step(tr[i], tr[i + 1])
}

/// What the initiator does next, decided afresh on every spin
/// iteration from what it just observed.
#[derive(Clone, Copy, Debug, PartialEq, Eq, Structural)]
pub enum InitiatorAction {
    /// `s1` has reached the target: the run is complete.
    Complete,
    /// The deadline has passed before the target was reached: stop now,
    /// whether or not mid-round.
    TimeOut,
    /// The responder has not yet caught up to the expected `s2` value:
    /// keep busy-polling.
    WaitForResponder,
    /// The responder has caught up: increment `s1` and expect one more
    /// from the responder.
    Advance,
}

/// What the responder does next, decided afresh on every spin
/// iteration from what it just observed.
#[derive(Clone, Copy, Debug, PartialEq, Eq, Structural)]
pub enum ResponderAction {
    /// The deadline has passed: stop now. The responder has no other
    /// stop condition of its own.
    TimeOut,
    /// `s1` still equals the last value this side saw: keep
    /// busy-polling.
    WaitForInitiator,
    /// `s1` has moved: increment `s2` to catch up.
    Advance,
}

/// The initiator's spin-loop decision. `expected_s2` is the value of
/// `s2` at which the responder has caught up — always the initiator's
/// own last `s1`. The target check comes first, so a run whose target
/// is already met completes even under an expired deadline; the
/// deadline is consulted on every iteration, so a stalled responder
/// never causes an unbounded hang.
pub fn initiator_decide(
    target: u64,
    expected_s2: u64,
    s1_obs: u64,
    s2_obs: u64,
    deadline_passed: bool,
) -> (a: InitiatorAction)
    ensures
        a == InitiatorAction::Complete <==> s1_obs >= target,
        a == InitiatorAction::TimeOut <==> (s1_obs < target && deadline_passed),
        a == InitiatorAction::WaitForResponder <==> (s1_obs < target && !deadline_passed
            && s2_obs != expected_s2),
        a == InitiatorAction::Advance <==> (s1_obs < target && !deadline_passed
            && s2_obs == expected_s2),
{
    if s1_obs >= target {
        InitiatorAction::Complete
    } else if deadline_passed {
        InitiatorAction::TimeOut
    } else if s2_obs != expected_s2 {
        InitiatorAction::WaitForResponder
    } else {
        InitiatorAction::Advance
    }
}

/// The responder's spin-loop decision. `last_seen_s1` is the value of
/// `s1` this side last matched — always the responder's own `s2`. The
/// deadline is consulted on every iteration; a change in `s1` is the
/// only signal to advance.
pub fn responder_decide(last_seen_s1: u64, s1_obs: u64, deadline_passed: bool) -> (a:
    ResponderAction)
    ensures
        a == ResponderAction::TimeOut <==> deadline_passed,
        a == ResponderAction::WaitForInitiator <==> (!deadline_passed && s1_obs == last_seen_s1),
        a == ResponderAction::Advance <==> (!deadline_passed && s1_obs != last_seen_s1),
{
    if deadline_passed {
        ResponderAction::TimeOut
    } else if s1_obs == last_seen_s1 {
        ResponderAction::WaitForInitiator
    } else {
        ResponderAction::Advance
    }
}

/// Law: under the channel invariant, the responder observing `s1`
/// differ from its own counter means exactly one increment is pending
/// — the inequality test in its spin loop is all the responder ever
/// needs to know it may advance.
pub proof fn lemma_observed_change_is_one_step(c: ChannelState)
    requires
        c.wf(),
        c.s1 != c.s2,
    ensures
        c.responder_enabled(),
        c.s1 == c.s2 + 1,
{
}

/// Law: at every observable instant of a run, `0 <= s1 - s2 <= 1`.
pub proof fn lemma_trace_invariant(tr: Seq<ChannelState>, i: int)
    requires
        is_trace(tr),
        0 <= i < tr.len(),
    ensures
        tr[i].wf(),
    decreases i,
{
    if i > 0 {
        lemma_trace_invariant(tr, i - 1);
        assert(is_step(tr[i - 1], tr[(i - 1) + 1]));
    }
}

/// Law: both counters are non-decreasing throughout a run.
pub proof fn lemma_trace_monotonic(tr: Seq<ChannelState>, i: int, j: int)
    requires
        is_trace(tr),
        0 <= i <= j < tr.len(),
    ensures
        tr[i].s1 <= tr[j].s1,
        tr[i].s2 <= tr[j].s2,
    decreases j - i,
{
    if i < j {
        lemma_trace_monotonic(tr, i, j - 1);
        assert(is_step(tr[j - 1], tr[(j - 1) + 1]));
    }
}

} // verus!
