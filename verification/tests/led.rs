use gimbal_core::cell::BroadcastCell;
use gimbal_core::led::{
    arm_led_task, set_arm_led, set_status_led, status_led_period_us, status_led_task,
    strobe_on_time_us, Indicators, Level, Strobe, STATUS_LED_RATE_HZ, STROBE_DUTY_PERCENT,
};

#[test]
fn level_of_an_indicator() {
    assert_eq!(Level::from_enabled(true), Level::High);
    assert_eq!(Level::from_enabled(false), Level::Low);
    assert!(Level::High.is_high());
    assert!(!Level::Low.is_high());
}

#[test]
fn status_led_constants() {
    assert_eq!(STATUS_LED_RATE_HZ, 200);
    assert_eq!(STROBE_DUTY_PERCENT, 20);
    assert_eq!(status_led_period_us(), 5000);
}

#[test]
fn strobe_on_time_is_a_fifth_rounded_down() {
    assert_eq!(strobe_on_time_us(5000), 1000);
    assert_eq!(strobe_on_time_us(4974), 994);
    assert_eq!(strobe_on_time_us(20_000), 4000);
    assert_eq!(strobe_on_time_us(0), 0);
    assert_eq!(strobe_on_time_us(4), 0);
    assert_eq!(strobe_on_time_us(5), 1);
    assert_eq!(strobe_on_time_us(9), 1);
    assert_eq!(strobe_on_time_us(u64::MAX), u64::MAX / 5);
    // In single precision the same share of the period comes out.
    assert_eq!((0.2f32 * 5000.0f32) as u64, strobe_on_time_us(5000));
}

#[test]
fn status_led_is_dark_until_switched_on() {
    let leds = Indicators::new();
    assert_eq!(status_led_task(&leds.status), Strobe::Dark);
}

#[test]
fn status_led_strobes_a_fifth_of_each_period() {
    let mut leds = Indicators::new();
    set_status_led(&mut leds, Level::High);
    for _ in 0..3 {
        assert_eq!(status_led_task(&leds.status), Strobe::Flash { on_time_us: 1000 });
    }
    set_status_led(&mut leds, Level::Low);
    for _ in 0..3 {
        assert_eq!(status_led_task(&leds.status), Strobe::Dark);
    }
    assert_eq!(leds.arm.read_latest(), None);
}

#[test]
fn arm_led_follows_each_change_once() {
    let mut leds = Indicators::new();
    let receiver = leds.arm.subscribe().unwrap();
    assert_eq!(arm_led_task(&mut leds.arm, receiver), None);
    set_arm_led(&mut leds, Level::High);
    assert_eq!(arm_led_task(&mut leds.arm, receiver), Some(Level::High));
    assert_eq!(arm_led_task(&mut leds.arm, receiver), None);
    assert_eq!(leds.status.read_latest(), None);
}

#[test]
fn arm_led_skips_to_the_newest_state() {
    let mut cell: BroadcastCell<Level, 1> = BroadcastCell::new();
    let receiver = cell.subscribe().unwrap();
    cell.write(Level::High);
    cell.write(Level::Low);
    cell.write(Level::High);
    cell.write(Level::Low);
    assert_eq!(arm_led_task(&mut cell, receiver), Some(Level::Low));
    assert_eq!(arm_led_task(&mut cell, receiver), None);
}

#[test]
fn the_two_indicators_are_set_apart() {
    let mut leds = Indicators::new();
    set_arm_led(&mut leds, Level::High);
    assert_eq!(leds.arm.read_latest(), Some(Level::High));
    assert_eq!(leds.status.read_latest(), None);
    set_status_led(&mut leds, Level::Low);
    assert_eq!(leds.arm.read_latest(), Some(Level::High));
    assert_eq!(leds.status.read_latest(), Some(Level::Low));
}
