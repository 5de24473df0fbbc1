//! The platform adapter's arithmetic.
//!
//! The platform exposes a render surface, a monotonic clock and a debug
//! sink.  Only the clock carries logic of its own: the hardware counts
//! ticks at a fixed rate, and the scheduler wants milliseconds of virtual
//! time since start.

use vstd::prelude::*;

verus! {

/// Converts a monotonic tick count to whole milliseconds, at
/// `ticks_per_second` ticks to the second.
pub fn ticks_to_millis(ticks: u64, ticks_per_second: u64) -> (r: u64)
    requires
        ticks_per_second >= 1000,
    ensures
        r as int == ticks as int / (ticks_per_second as int / 1000),
{
    ticks / (ticks_per_second / 1000)
}

} // verus!
