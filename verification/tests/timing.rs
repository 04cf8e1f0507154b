use gimbal_core::timing::{task_period_us, TICK_HZ};

#[test]
fn periods_of_the_output_tasks() {
    assert_eq!(task_period_us(200), 5000);
    assert_eq!(task_period_us(50), 20_000);
}

#[test]
fn period_is_the_tick_rate_over_the_rate_rounded_to_nearest() {
    assert_eq!(TICK_HZ, 1_000_000);
    assert_eq!(task_period_us(1), 1_000_000);
    assert_eq!(task_period_us(3), 333_333);
    // 1000000 / 7 = 142857.14, 1000000 / 6 = 166666.67
    assert_eq!(task_period_us(7), 142_857);
    assert_eq!(task_period_us(6), 166_667);
    assert_eq!(task_period_us(999_999), 1);
    assert_eq!(task_period_us(600_000), 2);
}

#[test]
fn period_is_what_the_time_base_computes() {
    assert_eq!(TICK_HZ, embassy_time::TICK_HZ);
    let rates = [1u64, 2, 3, 7, 49, 50, 51, 199, 200, 201, 1000, 32_768, 999_999, 1_000_000];
    for hz in rates {
        let duration = embassy_time::Duration::from_hz(hz);
        assert_eq!(task_period_us(hz), duration.as_micros(), "{hz}");
        assert_eq!(task_period_us(hz), duration.as_ticks(), "{hz}");
    }
}

#[test]
fn period_is_one_tick_at_and_above_the_tick_rate() {
    assert_eq!(task_period_us(1_000_000), 1);
    assert_eq!(task_period_us(2_000_000), 1);
    assert_eq!(task_period_us(u64::MAX), 1);
}
