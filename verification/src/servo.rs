//! Servo output: from an angle setpoint to the width of the pulse that commands it.

use crate::angle::{
    degrees, lemma_clamped_in_bounds, lemma_clamped_monotone, lemma_named_angles,
    lemma_rank_orders_units, magnitude_units, Angle, DEG_90_BITS, FRACTION_SPAN, NEG_90_BITS,
    SIGN_BIT, ZERO_BITS,
};
use crate::cell::BroadcastCell;
use crate::timing::{period_micros_of, task_period_us};
use vstd::arithmetic::div_mod::*;
use vstd::arithmetic::mul::*;
use vstd::arithmetic::power2::*;
use vstd::prelude::*;

verus! {

/// The pulse width that commands -90 degrees, in microseconds.
pub const MIN_PULSE_US: u64 = 1040;

/// The pulse width that commands 90 degrees, in microseconds.
pub const MAX_PULSE_US: u64 = 2360;

/// The pulse width that commands the centre position, zero degrees, in microseconds.
pub const CENTRE_PULSE_US: u64 = 1700;

/// The difference between the longest and the shortest pulse, in microseconds.
pub const PULSE_SPAN_US: u64 = 1320;

/// The width of the range of angles that a servo accepts, in degrees.
pub const ANGLE_SPAN_DEG: u64 = 180;

/// How often a servo gets a pulse, per second.
pub const SERVO_RATE_HZ: u64 = 50;

/// The lowest angle that a servo accepts: -90 degrees.
pub open spec fn servo_low() -> Angle {
    Angle { bits: NEG_90_BITS }
}

/// The highest angle that a servo accepts: 90 degrees.
pub open spec fn servo_high() -> Angle {
    Angle { bits: DEG_90_BITS }
}

/// The pulse width for an angle, in microseconds: the angle is saturated to [-90, 90]
/// degrees and mapped linearly onto [1040, 2360], rounding down. What is not a number gets
/// a pulse of no width.
pub open spec fn pulse_width_of(angle: Angle) -> int {
    if angle.is_nan() {
        0
    } else {
        let reach = angle.clamped(servo_low(), servo_high()).units() + degrees(90);
        MIN_PULSE_US + (reach * PULSE_SPAN_US) / degrees(ANGLE_SPAN_DEG as int)
    }
}

/// The pulse width for the setpoint that a cell holds: zero degrees, the centre position,
/// while nothing was written.
pub open spec fn pulse_width_for(latest: Option<Angle>) -> int {
    match latest {
        Some(angle) => pulse_width_of(angle),
        None => pulse_width_of(Angle { bits: ZERO_BITS }),
    }
}

/// The linear map on a number given as `sign * significand * 2^(exponent - 1)` units is the
/// same map on `sign * significand` over a degree of `2^(150 - exponent)`.
proof fn lemma_reach_rescaled(significand: int, exponent: nat, sign: int)
    requires
        1 <= exponent <= 150,
        0 <= significand,
        sign == 1 || sign == -1,
        significand * pow2((exponent - 1) as nat) <= degrees(90),
    ensures
        significand <= 90 * pow2((150 - exponent) as nat),
        ((sign * (significand * pow2((exponent - 1) as nat)) + degrees(90)) * PULSE_SPAN_US)
            / degrees(ANGLE_SPAN_DEG as int) == ((90 * pow2((150 - exponent) as nat) + sign
            * significand) * PULSE_SPAN_US) / (ANGLE_SPAN_DEG * pow2((150 - exponent) as nat)),
{
    let k = pow2((exponent - 1) as nat) as int;
    let p = pow2((150 - exponent) as nat) as int;
    lemma_pow2_pos((exponent - 1) as nat);
    lemma_pow2_pos((150 - exponent) as nat);
    lemma_pow2_adds((exponent - 1) as nat, (150 - exponent) as nat);
    assert(degrees(90) == (90 * p) * k) by (nonlinear_arith)
        requires
            k * p == pow2(149),
    ;
    lemma_mul_inequality_converse(significand, 90 * p, k);
    let a = (90 * p + sign * significand) * 1320;
    let d = 180 * p;
    assert((sign * (significand * k) + degrees(90)) * 1320 == k * a) by (nonlinear_arith)
        requires
            degrees(90) == (90 * p) * k,
            a == (90 * p + sign * significand) * 1320,
    ;
    assert(degrees(180) == k * d) by (nonlinear_arith)
        requires
            k * p == pow2(149),
            d == 180 * p,
    ;
    assert(0 <= a) by (nonlinear_arith)
        requires
            a == (90 * p + sign * significand) * 1320,
            significand <= 90 * p,
            0 <= significand,
            sign == 1 || sign == -1,
    ;
    lemma_div_multiples_vanish_quotient(k, a, d);
}

/// The ends of the range and its centre get the pulses of 1040, 2360 and 1700
/// microseconds.
pub proof fn lemma_pulse_at_ends_and_centre()
    ensures
        pulse_width_of(Angle { bits: NEG_90_BITS }) == MIN_PULSE_US,
        pulse_width_of(Angle { bits: DEG_90_BITS }) == MAX_PULSE_US,
        pulse_width_of(Angle { bits: ZERO_BITS }) == CENTRE_PULSE_US,
{
    lemma_named_angles();
    let d = pow2(149) as int;
    lemma_pow2_pos(149);
    assert((degrees(-90) + degrees(90)) * 1320 == 0 * (180 * d) + 0) by (nonlinear_arith)
        requires
            degrees(-90) == (-90) * d,
            degrees(90) == 90 * d,
    ;
    assert((degrees(90) + degrees(90)) * 1320 == 1320 * (180 * d) + 0) by (nonlinear_arith)
        requires
            degrees(90) == 90 * d,
    ;
    assert((degrees(0) + degrees(90)) * 1320 == 660 * (180 * d) + 0) by (nonlinear_arith)
        requires
            degrees(0) == 0 * d,
            degrees(90) == 90 * d,
    ;
    lemma_fundamental_div_mod_converse_div(0, 180 * d, 0, 0);
    lemma_fundamental_div_mod_converse_div(1320 * (180 * d), 180 * d, 1320, 0);
    lemma_fundamental_div_mod_converse_div(660 * (180 * d), 180 * d, 660, 0);
}

/// The pulse of a number is the linear map of the saturated angle, rounded down to a whole
/// microsecond: it is less than one microsecond short of the exact value, and it lies in
/// [1040, 2360].
pub proof fn lemma_pulse_is_linear(angle: Angle)
    requires
        !angle.is_nan(),
    ensures
        MIN_PULSE_US <= pulse_width_of(angle) <= MAX_PULSE_US,
        ({
            let reach = angle.clamped(servo_low(), servo_high()).units() + degrees(90);
            let risen = pulse_width_of(angle) - MIN_PULSE_US;
            risen * degrees(180) <= reach * PULSE_SPAN_US < (risen + 1) * degrees(180)
        }),
{
    lemma_named_angles();
    lemma_clamped_in_bounds(angle, servo_low(), servo_high());
    let d = pow2(149) as int;
    lemma_pow2_pos(149);
    let span = 180 * d;
    let reach = angle.clamped(servo_low(), servo_high()).units() + degrees(90);
    let x = reach * 1320;
    lemma_fundamental_div_mod(x, span);
    lemma_mod_bound(x, span);
    assert(span * (x / span) == (x / span) * span) by (nonlinear_arith);
    assert((x / span + 1) * span == (x / span) * span + span) by (nonlinear_arith);
    assert(0 <= x <= 1320 * span) by (nonlinear_arith)
        requires
            0 <= reach <= span,
            x == reach * 1320,
    ;
    lemma_div_is_ordered(0, x, span);
    lemma_div_is_ordered(x, 1320 * span, span);
    lemma_fundamental_div_mod_converse_div(1320 * span, span, 1320, 0);
}

/// A larger angle never gets a shorter pulse.
pub proof fn lemma_pulse_is_monotone(a: Angle, b: Angle)
    requires
        !a.is_nan(),
        !b.is_nan(),
        a.units() <= b.units(),
    ensures
        pulse_width_of(a) <= pulse_width_of(b),
{
    lemma_named_angles();
    lemma_clamped_monotone(a, b, servo_low(), servo_high());
    let d = pow2(149) as int;
    lemma_pow2_pos(149);
    let ra = a.clamped(servo_low(), servo_high()).units() + degrees(90);
    let rb = b.clamped(servo_low(), servo_high()).units() + degrees(90);
    lemma_div_is_ordered(ra * 1320, rb * 1320, 180 * d);
}

/// Converts an angle in degrees to the width of the servo pulse in microseconds.
pub fn servo_angle_to_pulse_width_us(angle_deg: Angle) -> (pulse_width: u64)
    ensures
        pulse_width == pulse_width_of(angle_deg),
{
    if angle_deg.not_a_number() {
        return 0;
    }
    let low = Angle::from_bits(NEG_90_BITS);
    let high = Angle::from_bits(DEG_90_BITS);
    let angle = angle_deg.clamp(low, high);
    proof {
        lemma_named_angles();
        lemma_clamped_in_bounds(angle_deg, low, high);
        lemma_rank_orders_units(angle, high);
        lemma_rank_orders_units(low, angle);
    }
    let magnitude: u32 = angle.abs_bits();
    let negative = angle.bits >= SIGN_BIT;
    let field: u32 = magnitude / FRACTION_SPAN;
    let fraction: u32 = magnitude % FRACTION_SPAN;
    let significand: u64 = if field == 0 {
        fraction as u64
    } else {
        (FRACTION_SPAN + fraction) as u64
    };
    let exponent: u32 = if field == 0 {
        1
    } else {
        field
    };
    // A degree is 2^shift times the weight of the significand's lowest bit.
    let shift: u64 = (150 - exponent) as u64;
    let ghost sign: int = if negative {
        -1
    } else {
        1
    };
    let ghost degree = pow2(shift as nat) as int;
    proof {
        lemma2_to64();
        assert(magnitude_units(magnitude as int) == significand * pow2((exponent - 1) as nat))
            by {
            if field == 0 {
                assert(significand * pow2(0) == significand) by (nonlinear_arith)
                    requires
                        pow2(0) == 1,
                ;
            }
        }
        assert(angle.units() == sign * (significand * pow2((exponent - 1) as nat)))
            by (nonlinear_arith)
            requires
                angle.units() == sign * magnitude_units(magnitude as int),
                magnitude_units(magnitude as int) == significand * pow2((exponent - 1) as nat),
        ;
        lemma_reach_rescaled(significand as int, exponent as nat, sign);
    }
    if shift > 32 {
        // The angle is within 2^-9 degree of zero: the pulse is that of the centre, or one
        // microsecond less where the angle lies below zero.
        let below_centre = negative && significand > 0;
        proof {
            lemma2_to64_rest();
            if shift > 33 {
                lemma_pow2_strictly_increases(33, shift as nat);
            }
            let d = 180 * degree;
            let a = (90 * degree + sign * significand) * 1320;
            if below_centre {
                lemma_fundamental_div_mod_converse_div(a, d, 659, d - 1320 * significand);
            } else {
                lemma_fundamental_div_mod_converse_div(a, d, 660, 1320 * significand);
            }
        }
        if below_centre {
            CENTRE_PULSE_US - 1
        } else {
            CENTRE_PULSE_US
        }
    } else {
        proof {
            if shift < 32 {
                lemma_pow2_strictly_increases(shift as nat, 32);
            }
            vstd::bits::lemma_u64_shl_is_mul(1, shift);
        }
        let one_degree: u64 = 1u64 << shift;
        let centre: u64 = 90 * one_degree;
        let reach: u64 = if negative {
            centre - significand
        } else {
            centre + significand
        };
        MIN_PULSE_US + reach * PULSE_SPAN_US / (ANGLE_SPAN_DEG * one_degree)
    }
}

/// The length of one period of a servo task: 20000 microseconds.
pub fn servo_period_us() -> (period_us: u64)
    ensures
        period_us == period_micros_of(SERVO_RATE_HZ),
        period_us == 20000,
{
    task_period_us(SERVO_RATE_HZ)
}

/// One period of a servo task: reads the latest setpoint of its axis and gives the width
/// in microseconds of the pulse to put on the line; the line is low for the rest of the
/// period. Before the first setpoint the servo is held at the centre.
pub fn servo_task(cell: &BroadcastCell<Angle, 1>) -> (pulse_width_us: u64)
    ensures
        pulse_width_us == pulse_width_for(cell@.latest),
{
    let angle_deg = match cell.read_latest() {
        Some(angle) => angle,
        None => Angle::from_bits(ZERO_BITS),
    };
    servo_angle_to_pulse_width_us(angle_deg)
}

} // verus!
