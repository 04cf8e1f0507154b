use gimbal_core::angle::Angle;
use gimbal_core::cell::BroadcastCell;
use gimbal_core::servo::{
    servo_angle_to_pulse_width_us, servo_period_us, servo_task, ANGLE_SPAN_DEG, CENTRE_PULSE_US,
    MAX_PULSE_US, MIN_PULSE_US, PULSE_SPAN_US, SERVO_RATE_HZ,
};

fn pulse(degrees: f32) -> u64 {
    servo_angle_to_pulse_width_us(Angle::from_bits(degrees.to_bits()))
}

/// The map as single-precision arithmetic computes it.
fn float_pulse(mut angle_deg: f32) -> u64 {
    let min_angle = -90.0;
    let max_angle = 90.0;
    if angle_deg < min_angle {
        angle_deg = min_angle;
    } else if angle_deg > max_angle {
        angle_deg = max_angle;
    }
    let min_pulse = 1040.0;
    let max_pulse = 2360.0;
    let pulse_width =
        min_pulse + (angle_deg - min_angle) / (max_angle - min_angle) * (max_pulse - min_pulse);
    pulse_width as u64
}

#[test]
fn servo_constants() {
    assert_eq!(MIN_PULSE_US, 1040);
    assert_eq!(MAX_PULSE_US, 2360);
    assert_eq!(PULSE_SPAN_US, MAX_PULSE_US - MIN_PULSE_US);
    assert_eq!(CENTRE_PULSE_US, (MIN_PULSE_US + MAX_PULSE_US) / 2);
    assert_eq!(ANGLE_SPAN_DEG, 180);
    assert_eq!(SERVO_RATE_HZ, 50);
}

#[test]
fn pulse_at_the_ends_and_the_centre() {
    assert_eq!(pulse(-90.0), 1040);
    assert_eq!(pulse(90.0), 2360);
    assert_eq!(pulse(0.0), 1700);
    assert_eq!(pulse(-0.0), 1700);
}

#[test]
fn pulse_exact_values_in_between() {
    assert_eq!(pulse(45.0), 2030);
    assert_eq!(pulse(-45.0), 1370);
    assert_eq!(pulse(30.0), 1920);
    assert_eq!(pulse(-30.0), 1480);
    // 91 * 22 / 3 = 667.33
    assert_eq!(pulse(1.0), 1707);
    // 89 * 22 / 3 = 652.67
    assert_eq!(pulse(-1.0), 1692);
    // 90.5 * 22 / 3 = 663.67
    assert_eq!(pulse(0.5), 1703);
    // 179.75 * 22 / 3 = 1318.17
    assert_eq!(pulse(89.75), 2358);
    // 0.25 * 22 / 3 = 1.83
    assert_eq!(pulse(-89.75), 1041);
}

#[test]
fn pulse_saturates_out_of_range() {
    assert_eq!(pulse(90.00001), 2360);
    assert_eq!(pulse(120.0), 2360);
    assert_eq!(pulse(3.0e38), 2360);
    assert_eq!(pulse(f32::INFINITY), 2360);
    assert_eq!(pulse(-90.00001), 1040);
    assert_eq!(pulse(-1000.0), 1040);
    assert_eq!(pulse(f32::NEG_INFINITY), 1040);
}

#[test]
fn pulse_of_what_is_not_a_number_is_zero() {
    assert_eq!(pulse(f32::NAN), 0);
    assert_eq!(float_pulse(f32::NAN), 0);
    for bits in [0x7f80_0001u32, 0x7fff_ffff, 0xffc0_0000, 0xffff_ffff] {
        assert_eq!(servo_angle_to_pulse_width_us(Angle::from_bits(bits)), 0);
    }
}

#[test]
fn pulse_rounds_down_next_to_zero() {
    // The least angle below zero falls short of the centre pulse, and so rounds to 1699.
    assert_eq!(pulse(-1.0e-45), 1699);
    assert_eq!(pulse(-1.0e-40), 1699);
    assert_eq!(pulse(-1.0e-20), 1699);
    assert_eq!(pulse(-0.001), 1699);
    assert_eq!(pulse(1.0e-45), 1700);
    assert_eq!(pulse(1.0e-40), 1700);
    assert_eq!(pulse(1.0e-20), 1700);
    assert_eq!(pulse(0.001), 1700);
}

#[test]
fn pulse_rounds_down_on_both_sides_of_the_small_angle_split() {
    // 2^-8 and 2^-9 degrees lie on the two sides of the split between the two ways of
    // computing; 22 / 3 of either is far less than one microsecond.
    for x in [0.00390625f32, 0.001953125, 0.0078125, 0.0009765625] {
        assert_eq!(pulse(x), 1700);
        assert_eq!(pulse(-x), 1699);
    }
    // 3 / 22 degree is the first angle to reach the next microsecond.
    assert_eq!(pulse(0.13636), 1700);
    assert_eq!(pulse(0.13637), 1701);
    assert_eq!(pulse(-0.13636), 1699);
    assert_eq!(pulse(-0.13637), 1698);
}

#[test]
fn pulse_is_within_a_microsecond_of_the_float_map() {
    let mut x = -100.0f32;
    while x <= 100.0 {
        let (exact, float) = (pulse(x), float_pulse(x));
        assert!(exact.abs_diff(float) <= 1, "{x}: {exact} against {float}");
        assert!((1040..=2360).contains(&exact));
        x += 0.0371;
    }
}

#[test]
fn pulse_never_falls_as_the_angle_grows() {
    let mut x = -95.0f32;
    let mut last = pulse(x);
    while x <= 95.0 {
        let now = pulse(x);
        assert!(last <= now, "{x}");
        last = now;
        x += 0.0113;
    }
    assert_eq!(last, 2360);
}

#[test]
fn pulse_is_linear_within_rounding() {
    // Over whole degrees the exact value is 1700 + 22 d / 3.
    for d in -90i64..=90 {
        let expected = (1700 * 3 + 22 * d).div_euclid(3) as u64;
        assert_eq!(pulse(d as f32), expected, "{d}");
    }
}

#[test]
fn servo_task_parks_an_uncommanded_axis_at_the_centre() {
    let cell: BroadcastCell<Angle, 1> = BroadcastCell::new();
    assert_eq!(servo_task(&cell), 1700);
}

#[test]
fn servo_task_follows_the_latest_setpoint() {
    let mut cell: BroadcastCell<Angle, 1> = BroadcastCell::new();
    cell.write(Angle::from_bits(90.0f32.to_bits()));
    assert_eq!(servo_task(&cell), 2360);
    assert_eq!(servo_task(&cell), 2360);
    cell.write(Angle::from_bits((-45.0f32).to_bits()));
    cell.write(Angle::from_bits(45.0f32.to_bits()));
    assert_eq!(servo_task(&cell), 2030);
    cell.write(Angle::from_bits(f32::NAN.to_bits()));
    assert_eq!(servo_task(&cell), 0);
}

#[test]
fn servo_period_is_twenty_milliseconds() {
    assert_eq!(servo_period_us(), 20_000);
}
