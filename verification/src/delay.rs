//! Busy-wait delays against the free-running system counter.
//!
//! A delay reads the counter frequency and the current count once, computes
//! a deadline, and then polls the counter until it reaches that deadline.
//! Reading the counter is left to the caller; this module computes the
//! deadline and decides, for each poll, whether the wait is over.

use vstd::prelude::*;

verus! {

/// Counter ticks in `us` microseconds at a counter frequency of `freq` Hz.
pub open spec fn delay_ticks(us: u64, freq: u64) -> int {
    (us * freq) / 1_000_000
}

/// A pending busy-wait: it is over once the counter reaches its deadline.
pub struct Delay {
    deadline: u64,
}

impl Delay {
    /// The counter value at which the wait is over.
    pub closed spec fn deadline(&self) -> int {
        self.deadline as int
    }

    /// Whether a wait with this deadline is over when the counter reads `now`.
    pub open spec fn over_at(&self, now: u64) -> bool {
        now >= self.deadline()
    }

    /// Polls the wait: `true` once the counter value `now` has reached the deadline.
    pub fn expired(&self, now: u64) -> (done: bool)
        ensures
            done == self.over_at(now),
    {
        now >= self.deadline
    }
}

/// Starts a wait of `us` microseconds, with the counter running at `freq` Hz
/// and currently reading `now`.
pub fn usdelay(us: u64, freq: u64, now: u64) -> (d: Delay)
    requires
        us * freq <= u64::MAX,
        now + delay_ticks(us, freq) <= u64::MAX,
    ensures
        d.deadline() == now + delay_ticks(us, freq),
{
    let ticks = us * freq / 1_000_000;
    Delay { deadline: now + ticks }
}

/// Starts a wait of `ms` milliseconds: the same wait as `usdelay` of
/// `ms * 1000` microseconds.
pub fn msdelay(ms: u64, freq: u64, now: u64) -> (d: Delay)
    requires
        ms * 1000 <= u64::MAX,
        ms * 1000 * freq <= u64::MAX,
        now + delay_ticks((ms * 1000) as u64, freq) <= u64::MAX,
    ensures
        d.deadline() == now + delay_ticks((ms * 1000) as u64, freq),
{
    usdelay(ms * 1000, freq, now)
}

/// Once a wait is over it stays over: the counter only moves forward.
pub proof fn lemma_delay_stays_expired(d: Delay, now: u64, later: u64)
    requires
        d.over_at(now),
        now <= later,
    ensures
        d.over_at(later),
{
}

/// A wait is over exactly when the counter has advanced by the delay's
/// tick count since the wait started.
pub proof fn lemma_usdelay_elapsed(us: u64, freq: u64, start: u64, d: Delay, now: u64)
    requires
        d.deadline() == start + delay_ticks(us, freq),
    ensures
        d.over_at(now) <==> now - start >= delay_ticks(us, freq),
{
}

/// The tick count of a delay is the number of whole microsecond-periods of
/// the counter: `us` microseconds at `freq` Hz rounded down to whole ticks,
/// so that one second is exactly `freq` ticks.
pub proof fn lemma_delay_ticks_rounding(us: u64, freq: u64)
    ensures
        delay_ticks(us, freq) * 1_000_000 <= us * freq < (delay_ticks(us, freq) + 1) * 1_000_000,
        delay_ticks(1_000_000, freq) == freq,
{
    let p = us * freq;
    assert(p / 1_000_000 * 1_000_000 <= p < (p / 1_000_000 + 1) * 1_000_000) by (nonlinear_arith)
        requires
            p >= 0,
    ;
    assert(1_000_000 * freq / 1_000_000 == freq) by (nonlinear_arith);
}

} // verus!
