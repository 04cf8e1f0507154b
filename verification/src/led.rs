//! The two indicator lines: the arm indicator follows its state at once, the status
//! indicator strobes it at a fixed rate.

use crate::cell::{BroadcastCell, CellState, Reader};
use crate::timing::{period_micros_of, task_period_us};
use vstd::prelude::*;

verus! {

/// How often the status indicator strobes, per second.
pub const STATUS_LED_RATE_HZ: u64 = 200;

/// The part of a period for which a lit status indicator is driven high, in percent.
pub const STROBE_DUTY_PERCENT: u64 = 20;

/// The level of a two-level signal line.
#[derive(Clone, Copy, Debug, PartialEq, Eq, Structural)]
pub enum Level {
    Low,
    High,
}

impl Level {
    /// The level that stands for an indicator being on or off.
    pub open spec fn of(enabled: bool) -> Level {
        if enabled {
            Level::High
        } else {
            Level::Low
        }
    }

    /// `High` for an indicator that is on, `Low` for one that is off.
    pub fn from_enabled(enabled: bool) -> (level: Level)
        ensures
            level == Level::of(enabled),
    {
        if enabled {
            Level::High
        } else {
            Level::Low
        }
    }

    /// Tells whether the level is `High`.
    pub fn is_high(self) -> (high: bool)
        ensures
            high == (self == Level::High),
    {
        match self {
            Level::High => true,
            Level::Low => false,
        }
    }
}

/// The state cells of the two indicators. The command server writes them; each has one
/// output task as its reader.
pub struct Indicators {
    pub arm: BroadcastCell<Level, 1>,
    pub status: BroadcastCell<Level, 1>,
}

impl Indicators {
    /// Two cells that were never written.
    pub fn new() -> (leds: Self)
        ensures
            leds.arm@ == CellState::<Level>::initial(),
            leds.status@ == CellState::<Level>::initial(),
    {
        Indicators { arm: BroadcastCell::new(), status: BroadcastCell::new() }
    }
}

/// Sets the state of the arm indicator.
pub fn set_arm_led(leds: &mut Indicators, state: Level)
    ensures
        final(leds).arm@ == old(leds).arm@.write(state),
        final(leds).status == old(leds).status,
{
    leds.arm.write(state);
}

/// Sets the state of the status indicator.
pub fn set_status_led(leds: &mut Indicators, state: Level)
    ensures
        final(leds).status@ == old(leds).status@.write(state),
        final(leds).arm == old(leds).arm,
{
    leds.status.write(state);
}

/// One turn of the arm indicator's task. `Some(level)`: a state was set that the task has
/// not followed yet; the line goes to `level` at once and the task takes another turn.
/// `None`: the line stays as it is until the next write. Of several states set between two
/// turns only the newest is followed.
pub fn arm_led_task(cell: &mut BroadcastCell<Level, 1>, receiver: Reader) -> (level:
    Option<Level>)
    ensures
        level == old(cell)@.poll(receiver.index()),
        level is Some <==> old(cell)@.has_update(receiver.index()),
        final(cell)@ == old(cell)@.observe(receiver.index()),
{
    cell.poll_change(receiver)
}

/// What the status line does during one period.
#[derive(Clone, Copy, Debug, PartialEq, Eq, Structural)]
pub enum Strobe {
    /// Low for the whole period.
    Dark,
    /// High for the first `on_time_us` microseconds, then low.
    Flash { on_time_us: u64 },
}

/// The time for which a lit status indicator is high in a period of `period_us`
/// microseconds: the duty cycle's share of it, rounded down.
pub open spec fn on_time_of(period_us: int) -> int {
    period_us * STROBE_DUTY_PERCENT / 100
}

/// The strobe for an indicator state: a flash while the state is `High`, dark while it is
/// `Low` or was never set.
pub open spec fn strobe_for(latest: Option<Level>, period_us: int) -> Strobe {
    if latest == Some(Level::High) {
        Strobe::Flash { on_time_us: on_time_of(period_us) as u64 }
    } else {
        Strobe::Dark
    }
}

/// The length of one period of the status indicator: 5000 microseconds.
pub fn status_led_period_us() -> (period_us: u64)
    ensures
        period_us == period_micros_of(STATUS_LED_RATE_HZ),
        period_us == 5000,
{
    task_period_us(STATUS_LED_RATE_HZ)
}

/// The time for which a lit status indicator is high in a period of `period_us`
/// microseconds.
pub fn strobe_on_time_us(period_us: u64) -> (on_time_us: u64)
    ensures
        on_time_us == on_time_of(period_us as int),
        on_time_us <= period_us,
{
    proof {
        // 20 percent is a fifth
        vstd::arithmetic::div_mod::lemma_div_multiples_vanish_quotient(20, period_us as int, 5);
    }
    period_us / (100 / STROBE_DUTY_PERCENT)
}

/// One period of the status indicator's task: reads the latest state and gives the strobe
/// to put on the line before the next tick.
pub fn status_led_task(cell: &BroadcastCell<Level, 1>) -> (strobe: Strobe)
    ensures
        strobe == strobe_for(cell@.latest, period_micros_of(STATUS_LED_RATE_HZ)),
        cell@.latest == Some(Level::High) ==> strobe == (Strobe::Flash {
            on_time_us: 1000,
        }),
{
    let period_us: u64 = status_led_period_us();
    let on_time_us: u64 = strobe_on_time_us(period_us);
    let state = match cell.read_latest() {
        Some(level) => level,
        None => Level::Low,
    };
    if state.is_high() {
        Strobe::Flash { on_time_us }
    } else {
        Strobe::Dark
    }
}

} // verus!
