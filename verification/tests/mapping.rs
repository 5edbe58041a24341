use core::time::Duration;
use rp2040_servo_pio::pulse::interpolate;
use rp2040_servo_pio::time::total_nanos;
use rp2040_servo_pio::{PwmCommand, Servo, ServoPioBuilder};

fn servo(min_us: u64, max_us: u64, span: u64) -> Servo {
    let (servo, _) = ServoPioBuilder::new()
        .set_min_pulse_width(Duration::from_micros(min_us))
        .set_max_pulse_width(Duration::from_micros(max_us))
        .set_max_degree_rotation(span)
        .build()
        .unwrap();
    servo
}

#[test]
fn total_nanos_joins_seconds_and_fraction() {
    assert_eq!(total_nanos(&Duration::new(3, 5)), 3_000_000_005);
    assert_eq!(total_nanos(&Duration::new(0, 0)), 0);
    assert_eq!(total_nanos(&Duration::new(0, 999_999_999)), 999_999_999);
    assert_eq!(total_nanos(&Duration::from_micros(1_500_000)), 1_500_000_000);
}

#[test]
fn total_nanos_of_the_longest_duration() {
    let expected = u64::MAX as u128 * 1_000_000_000 + 999_999_999;
    assert_eq!(total_nanos(&Duration::MAX), expected);
    assert_eq!(Duration::MAX.as_nanos(), expected);
}

#[test]
fn interpolate_rounds_the_step_down() {
    // 1_000_000 / 180 = 5555, remainder 100
    assert_eq!(interpolate(1_000_000, 2_000_000, 180, 0), 1_000_000);
    assert_eq!(interpolate(1_000_000, 2_000_000, 180, 1), 1_005_555);
    assert_eq!(interpolate(1_000_000, 2_000_000, 180, 90), 1_499_950);
    assert_eq!(interpolate(1_000_000, 2_000_000, 180, 180), 1_999_900);
    assert_eq!(interpolate(1_000_000, 2_000_000, 180, 181), 2_000_000);
}

#[test]
fn interpolate_with_a_step_of_zero_stays_at_the_minimum() {
    assert_eq!(interpolate(10, 20, 180, 0), 10);
    assert_eq!(interpolate(10, 20, 180, 180), 10);
    assert_eq!(interpolate(10, 20, 180, u64::MAX), 10);
}

#[test]
fn interpolate_saturates_where_the_product_overflows() {
    assert_eq!(interpolate(0, u128::MAX, 1, 2), u128::MAX);
    assert_eq!(interpolate(1, u128::MAX, 1, 1), u128::MAX);
    assert_eq!(interpolate(5, u128::MAX, 2, u64::MAX), u128::MAX);
    assert_eq!(interpolate(1 << 100, 1 << 101, 1, u64::MAX), 1 << 101);
}

#[test]
fn zero_degrees_is_the_minimum_pulse() {
    for (min, max, span) in [(1000, 2000, 180), (500, 2500, 270), (1, 2, 1), (0, 7, 3), (999, 1000, 360)] {
        let servo = servo(min, max, span);
        assert_eq!(servo.pulse_width(0), Duration::from_micros(min));
    }
}

#[test]
fn pulse_width_saturates_where_the_span_divides_the_travel() {
    // 1_000_000 ns over 100 or 200 degrees divides without remainder
    for span in [100, 200, 1000] {
        let servo = servo(1000, 2000, span);
        for degrees in [span, span + 1, 2 * span, u64::MAX] {
            assert_eq!(servo.pulse_width(degrees), Duration::from_micros(2000));
        }
    }
}

#[test]
fn pulse_width_at_the_span_can_fall_short_of_the_maximum() {
    let servo = servo(1000, 2000, 180);
    assert_eq!(servo.pulse_width(180), Duration::from_nanos(1_999_900));
    assert_eq!(servo.pulse_width(181), Duration::from_micros(2000));
}

#[test]
fn pulse_width_never_decreases() {
    let servo = servo(1000, 2000, 180);
    let mut last = servo.pulse_width(0);
    for degrees in 1..=400 {
        let next = servo.pulse_width(degrees);
        assert!(last <= next);
        assert!(next <= Duration::from_micros(2000));
        last = next;
    }
    assert_eq!(last, Duration::from_micros(2000));
}

#[test]
fn pulse_width_midway() {
    assert_eq!(servo(1000, 2000, 100).pulse_width(50), Duration::from_micros(1500));
    assert_eq!(servo(1000, 2000, 180).pulse_width(90), Duration::from_nanos(1_499_950));
    assert_eq!(servo(500, 2500, 270).pulse_width(135), Duration::from_nanos(1_499_945));
}

#[test]
fn pulse_width_of_long_durations() {
    let (servo, _) = ServoPioBuilder::new()
        .set_min_pulse_width(Duration::new(0, 0))
        .set_max_pulse_width(Duration::MAX)
        .set_max_degree_rotation(3)
        .build()
        .unwrap();
    let step = Duration::MAX.as_nanos() / 3;
    let expected = Duration::new((step / 1_000_000_000) as u64, (step % 1_000_000_000) as u32);
    assert_eq!(servo.pulse_width(0), Duration::new(0, 0));
    assert_eq!(servo.pulse_width(1), expected);
    assert_eq!(servo.pulse_width(1).as_nanos(), step);
    assert_eq!(servo.pulse_width(2).as_nanos(), 2 * step);
    assert_eq!(servo.pulse_width(3).as_nanos(), 3 * step);
    assert_eq!(servo.pulse_width(4), Duration::MAX);
    assert_eq!(servo.pulse_width(u64::MAX), Duration::MAX);
}

#[test]
fn pulse_width_between_whole_seconds() {
    let (mut servo, _) = ServoPioBuilder::new()
        .set_min_pulse_width(Duration::new(1, 999_999_999))
        .set_max_pulse_width(Duration::new(4, 1))
        .set_max_degree_rotation(2)
        .build()
        .unwrap();
    assert_eq!(servo.pulse_width(0), Duration::new(1, 999_999_999));
    assert_eq!(servo.pulse_width(1), Duration::new(3, 0));
    assert_eq!(servo.pulse_width(2), Duration::new(4, 1));
    assert_eq!(servo.rotate(1), PwmCommand::Write(Duration::new(3, 0)));
}
