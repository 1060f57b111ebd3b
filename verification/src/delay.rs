//! Deadlines on the driver's monotonic clock, and the life of one delay.
//!
//! Time is a count of milliseconds on the driver's monotonic clock.  A delay
//! is registered with a deadline, stays pending while the driver's clock is
//! short of it, and fires exactly once, on the first turn at which the driver
//! observes that the deadline has passed.  A deadline already in the past
//! when the driver looks is due at once.

use vstd::prelude::*;

verus! {

/// Computes the deadline `duration_ms` after `now_ms`, or `None` when that
/// point does not fit the clock's range.
pub fn checked_deadline_after(now_ms: u64, duration_ms: u64) -> (d: Option<u64>)
    ensures
        match d {
            Some(v) => v == now_ms + duration_ms,
            None => now_ms + duration_ms > u64::MAX,
        },
{
    if duration_ms <= u64::MAX - now_ms {
        Some(now_ms + duration_ms)
    } else {
        None
    }
}

/// Computes the deadline `duration_ms` after `now_ms`.
pub fn deadline_after(now_ms: u64, duration_ms: u64) -> (d: u64)
    requires
        now_ms + duration_ms <= u64::MAX,
    ensures
        d == now_ms + duration_ms,
{
    now_ms + duration_ms
}

/// One registered delay: a one-shot wake at `deadline_ms`.
///
/// `fired` records that the driver has already completed the delay; a delay
/// is consumed exactly once.
#[derive(Clone, Copy, Debug, PartialEq, Eq, Structural)]
pub struct DelayState {
    /// The instant, on the driver's clock, at which the wake is due.
    pub deadline_ms: u64,
    /// Whether the driver has already fired this delay.
    pub fired: bool,
}

impl DelayState {
    /// True when the driver, observing its clock at `now_ms`, owes this
    /// delay a wake: the deadline has passed, equality included.
    pub open spec fn due(self, now_ms: u64) -> bool {
        now_ms >= self.deadline_ms
    }

    /// Registers a one-shot wake at `deadline_ms`.
    pub fn register(deadline_ms: u64) -> (d: DelayState)
        ensures
            d.deadline_ms == deadline_ms,
            !d.fired,
    {
        DelayState { deadline_ms, fired: false }
    }

    /// One driver turn observing the clock at `now_ms`: fires the delay if
    /// it is due and has not fired yet.  Returns whether it fired on this
    /// very turn.
    pub fn poll_fire(&mut self, now_ms: u64) -> (fired_now: bool)
        ensures
            final(self).deadline_ms == old(self).deadline_ms,
            final(self).fired == (old(self).fired || old(self).due(now_ms)),
            fired_now == (!old(self).fired && old(self).due(now_ms)),
    {
        if !self.fired && now_ms >= self.deadline_ms {
            self.fired = true;
            true
        } else {
            false
        }
    }
}

/// A delay never resolves early: on a turn whose clock reading is short of
/// the deadline, the delay is not due, so it cannot fire.
pub proof fn lemma_delay_never_early(d: DelayState, now_ms: u64)
    requires
        now_ms < d.deadline_ms,
    ensures
        !d.due(now_ms),
{
}

/// A delay whose deadline has passed — in particular one registered for an
/// instant already in the past — is due on the very next turn the driver
/// takes, so a pending delay fires then rather than hanging.
pub proof fn lemma_past_deadline_due(d: DelayState, now_ms: u64)
    requires
        d.deadline_ms <= now_ms,
    ensures
        d.due(now_ms),
{
}

/// The driver's turn instants, in the order taken: non-decreasing, and
/// consecutive instants at most one bounded wait apart — the loop turns
/// again within `TURN_WAIT_MS` even when nothing is due.
pub open spec fn bounded_turns(turns: Seq<u64>) -> bool {
    forall|m: int|
        0 <= m < turns.len() - 1 ==> turns[m] <= #[trigger] turns[m + 1] && turns[m + 1] - turns[m]
            <= crate::TURN_WAIT_MS
}

/// A deadline inside the span of the driver's turns is observed promptly:
/// when some turn precedes the deadline and some turn reaches it, a turn
/// falls at or after the deadline but before one bounded wait has passed —
/// the driver never leaves a due deadline unobserved for more than
/// `TURN_WAIT_MS`.
pub proof fn lemma_turn_observes_deadline_promptly(turns: Seq<u64>, d: u64, j: int, k: int)
    requires
        bounded_turns(turns),
        0 <= j < k < turns.len(),
        turns[j] < d,
        turns[k] >= d,
    ensures
        exists|m: int| 0 <= m < turns.len() && d <= #[trigger] turns[m] < d + crate::TURN_WAIT_MS,
    decreases k - j,
{
    if turns[j + 1] >= d {
        assert(d <= turns[j + 1] < d + crate::TURN_WAIT_MS);
    } else {
        lemma_turn_observes_deadline_promptly(turns, d, j + 1, k);
    }
}

/// One delay, from registration to wake, under the loop's bounded wait: a
/// pending delay is never due before its deadline, and once the driver's
/// turns span the deadline, the delay is due at some turn earlier than
/// `deadline + TURN_WAIT_MS` — it resolves no earlier than its deadline and
/// within one bounded wait of it.
pub proof fn lemma_delay_resolves_within_poll_bound(del: DelayState, turns: Seq<u64>, j: int, k: int)
    requires
        bounded_turns(turns),
        0 <= j < k < turns.len(),
        turns[j] < del.deadline_ms,
        turns[k] >= del.deadline_ms,
    ensures
        forall|t: u64| t < del.deadline_ms ==> !del.due(t),
        exists|m: int|
            0 <= m < turns.len() && del.due(#[trigger] turns[m]) && turns[m] < del.deadline_ms
                + crate::TURN_WAIT_MS,
{
    lemma_turn_observes_deadline_promptly(turns, del.deadline_ms, j, k);
    let m = choose|m: int|
        0 <= m < turns.len() && del.deadline_ms <= #[trigger] turns[m] < del.deadline_ms
            + crate::TURN_WAIT_MS;
    assert(del.due(turns[m]));
}

} // verus!
