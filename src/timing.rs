//! Scheduling intervals and the conversion from milliseconds to scheduler
//! ticks.
use vstd::prelude::*;

verus! {

/// Interval between two display ticks of the render loop, in milliseconds.
pub const RENDER_INTERVAL_MS: u32 = 10;

/// The number of ticks in `time_in_ms` milliseconds at `tick_rate_hz`
/// ticks per second, rounded down, or `None` where it does not fit in `u32`.
pub fn ms_to_ticks(time_in_ms: u32, tick_rate_hz: u32) -> (r: Option<u32>)
    ensures
        (time_in_ms as int * tick_rate_hz as int) / 1000 <= u32::MAX ==> r == Some(
            ((time_in_ms as int * tick_rate_hz as int) / 1000) as u32,
        ),
        (time_in_ms as int * tick_rate_hz as int) / 1000 > u32::MAX ==> r is None,
{
    assert(time_in_ms as u64 * tick_rate_hz as u64 <= u32::MAX as u64 * u32::MAX as u64) by (nonlinear_arith);
    let product: u64 = (time_in_ms as u64) * (tick_rate_hz as u64);
    let ticks: u64 = product / 1000;
    if ticks <= u32::MAX as u64 {
        Some(ticks as u32)
    } else {
        None
    }
}

} // verus!
