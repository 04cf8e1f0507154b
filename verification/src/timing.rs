//! Periods of the periodic output tasks.

use vstd::prelude::*;

verus! {

/// Ticks per second of the time base that durations are counted in: the tick rate that
/// this crate selects for `embassy-time`.
pub const TICK_HZ: u64 = 1_000_000;

/// The length in microseconds of one period of a task that runs `hz` times a second.
pub open spec fn period_micros_of(hz: u64) -> int {
    if hz >= TICK_HZ {
        1
    } else {
        (TICK_HZ + hz / 2) / (hz as int)
    }
}

/// Calls `embassy_time::Duration::from_hz` and reads the duration back in microseconds
/// with `Duration::as_micros`. Not proved: that `from_hz` gives one tick for a rate at or
/// above the tick rate and else the tick rate divided by `hz`, rounded to nearest; and
/// that `as_micros` gives the tick count itself, a tick being a microsecond at the tick
/// rate of one megahertz. A rate of zero is left out, since `from_hz` divides by it.
#[verifier::external_body]
fn period_micros(hz: u64) -> (micros: u64)
    requires
        hz > 0,
    ensures
        micros == period_micros_of(hz),
{
    embassy_time::Duration::from_hz(hz).as_micros()
}

/// The period of a task that runs `hz` times a second, in microseconds.
pub fn task_period_us(hz: u64) -> (micros: u64)
    requires
        hz > 0,
    ensures
        micros == period_micros_of(hz),
        1 <= micros <= TICK_HZ,
{
    let micros: u64 = period_micros(hz);
    assert(1 <= period_micros_of(hz) <= TICK_HZ) by (nonlinear_arith)
        requires
            hz > 0,
    ;
    micros
}

} // verus!
