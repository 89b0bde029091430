use rustwood::servo::{
    servo_duty_ticks_from_angle, servo_duty_ticks_from_pulse_us, servo_pulse_us_from_angle,
    throttle_angle_deg, SERVO_PERIOD_US,
};

#[test]
fn pulse_width_spans_one_to_two_milliseconds() {
    assert_eq!(SERVO_PERIOD_US, 20_000);
    assert_eq!(servo_pulse_us_from_angle(0), 1000);
    assert_eq!(servo_pulse_us_from_angle(1), 1006);
    assert_eq!(servo_pulse_us_from_angle(90), 1500);
    assert_eq!(servo_pulse_us_from_angle(180), 2000);
    assert_eq!(servo_pulse_us_from_angle(200), 2000);
    assert_eq!(servo_pulse_us_from_angle(u16::MAX), 2000);
}

#[test]
fn pulse_width_is_monotone_in_angle() {
    let mut previous = servo_pulse_us_from_angle(0);
    for angle in 0..=400u16 {
        let pulse = servo_pulse_us_from_angle(angle);
        assert!((1000..=2000).contains(&pulse));
        assert!(pulse >= previous);
        previous = pulse;
    }
}

#[test]
fn duty_ticks_round_to_nearest() {
    assert_eq!(servo_duty_ticks_from_pulse_us(1000), 205);
    assert_eq!(servo_duty_ticks_from_pulse_us(1500), 307);
    assert_eq!(servo_duty_ticks_from_pulse_us(2000), 410);
    assert_eq!(servo_duty_ticks_from_pulse_us(0), 0);
    assert_eq!(servo_duty_ticks_from_angle(0), 205);
    assert_eq!(servo_duty_ticks_from_angle(90), 307);
    assert_eq!(servo_duty_ticks_from_angle(180), 410);
}

#[test]
fn throttle_maps_to_angle() {
    assert_eq!(throttle_angle_deg(0), 0);
    assert_eq!(throttle_angle_deg(20), 36);
    assert_eq!(throttle_angle_deg(50), 90);
    assert_eq!(throttle_angle_deg(99), 178);
    assert_eq!(throttle_angle_deg(100), 180);
    assert_eq!(throttle_angle_deg(364), 655);
}
