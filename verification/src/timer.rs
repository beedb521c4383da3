//! Timer arithmetic.
//!
//! The machine's time CSR counts ticks of `CLOCK_FREQ` per second.  The
//! functions here do the arithmetic of the timer driver on plain tick
//! values; reading the CSR and programming the compare register belong to
//! the caller.

use vstd::prelude::*;
use vstd::arithmetic::div_mod::lemma_div_is_ordered;
use crate::config::{CLOCK_FREQ, MICRO_PER_SEC, TICKS_PER_SEC};

verus! {

/// Microseconds since boot for a reading of the time CSR: the tick count
/// scaled by the known clock frequency.
pub fn ticks_to_us(ticks: u64) -> (r: u64)
    ensures
        r == ticks / (CLOCK_FREQ / MICRO_PER_SEC),
{
    ticks / (CLOCK_FREQ / MICRO_PER_SEC)
}

/// The compare value for the next timer interrupt: one tick interval
/// (~10 ms) after `now_ticks`.
pub fn next_trigger_ticks(now_ticks: u64) -> (r: u64)
    requires
        now_ticks + CLOCK_FREQ / TICKS_PER_SEC <= u64::MAX,
    ensures
        r == now_ticks + CLOCK_FREQ / TICKS_PER_SEC,
{
    now_ticks + CLOCK_FREQ / TICKS_PER_SEC
}

/// The microsecond clock is monotonic: a later CSR reading never scales
/// to an earlier microsecond value.
pub proof fn lemma_time_monotonic(t1: u64, t2: u64)
    requires
        t1 <= t2,
    ensures
        t1 / (CLOCK_FREQ / MICRO_PER_SEC) <= t2 / (CLOCK_FREQ / MICRO_PER_SEC),
{
    lemma_div_is_ordered(t1 as int, t2 as int, (CLOCK_FREQ / MICRO_PER_SEC) as int);
}

} // verus!
