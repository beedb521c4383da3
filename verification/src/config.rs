//! Kernel configuration constants.

use vstd::prelude::*;

verus! {

/// Capacity of the task table: the number of application slots.
pub const MAX_APP_NUM: usize = 16;

/// Frequency of the platform timer, in ticks per second.
pub const CLOCK_FREQ: u64 = 12_500_000;

/// Timer interrupts per second; one tick every ~10 ms.
pub const TICKS_PER_SEC: u64 = 100;

/// Microseconds per second.
pub const MICRO_PER_SEC: u64 = 1_000_000;

} // verus!
