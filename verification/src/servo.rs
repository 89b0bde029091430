//! Throttle, servo angle, pulse width and PWM duty arithmetic for the motor
//! outputs (50 Hz hobby-servo style signals).
use vstd::prelude::*;

verus! {

/// PWM frequency of the motor outputs.
pub const SERVO_PWM_FREQ_HZ: u32 = 50;

/// PWM period of the motor outputs, in microseconds.
pub const SERVO_PERIOD_US: u32 = 1_000_000 / SERVO_PWM_FREQ_HZ;

/// Pulse width at angle zero, in microseconds.
pub const SERVO_MIN_PULSE_US: u32 = 1_000;

/// Pulse width at the maximum angle, in microseconds.
pub const SERVO_MAX_PULSE_US: u32 = 2_000;

/// Angle at which every motor output rests.
pub const SERVO_IDLE_ANGLE_DEG: u16 = 0;

/// Largest angle; larger requests are clamped to it.
pub const SERVO_MAX_ANGLE_DEG: u16 = 180;

/// Resolution of the PWM duty register, in bits.
pub const SERVO_DUTY_BITS: u32 = 12;

/// The pulse width for `angle_deg`: the angle is clamped to 180 degrees and
/// mapped linearly onto 1000..=2000 us, rounded to the nearest microsecond
/// (halves up).
pub open spec fn pulse_us_for_angle(angle_deg: u16) -> int {
    let clamped: int = if angle_deg <= 180 { angle_deg as int } else { 180 };
    1000 + (1000 * clamped + 90) / 180
}

/// The duty register value for a pulse of `pulse_us` microseconds in the
/// 20 ms period at 12-bit resolution, rounded to the nearest tick (halves up).
pub open spec fn duty_ticks_for_pulse(pulse_us: u32) -> int {
    (pulse_us as int * 4096 + 10000) / 20000
}

/// The angle that a throttle percentage maps to: `percent * 180 / 100`,
/// rounded down.
pub open spec fn angle_for_throttle(percent: u16) -> int {
    (percent as int * 180) / 100
}

/// Whether `percent * 180` fits the 16-bit arithmetic that maps a throttle
/// to an angle.
pub open spec fn throttle_fits(percent: u16) -> bool {
    percent as int * 180 <= u16::MAX as int
}

/// Pulse width in microseconds for a servo angle in degrees.
pub fn servo_pulse_us_from_angle(angle_deg: u16) -> (pulse_us: u32)
    ensures
        pulse_us == pulse_us_for_angle(angle_deg),
{
    let clamped: u32 = if angle_deg < SERVO_MAX_ANGLE_DEG {
        angle_deg as u32
    } else {
        SERVO_MAX_ANGLE_DEG as u32
    };
    let span: u32 = SERVO_MAX_PULSE_US - SERVO_MIN_PULSE_US;
    SERVO_MIN_PULSE_US + ((span * clamped + (SERVO_MAX_ANGLE_DEG as u32 / 2)) / SERVO_MAX_ANGLE_DEG as u32)
}

/// PWM duty ticks (12-bit, 20 ms period) for a pulse width in microseconds.
pub fn servo_duty_ticks_from_pulse_us(pulse_us: u32) -> (ticks: u32)
    requires
        pulse_us as int * 4096 + 10000 <= u32::MAX as int,
    ensures
        ticks == duty_ticks_for_pulse(pulse_us),
{
    let max_duty: u32 = 1u32 << SERVO_DUTY_BITS;
    assert(max_duty == 4096) by (bit_vector)
        requires
            max_duty == 1u32 << 12u32,
    ;
    ((pulse_us * max_duty) + (SERVO_PERIOD_US / 2)) / SERVO_PERIOD_US
}

/// PWM duty ticks for a servo angle: the pulse width for the angle, turned
/// into duty ticks.
pub fn servo_duty_ticks_from_angle(angle_deg: u16) -> (ticks: u32)
    ensures
        ticks == duty_ticks_for_pulse(pulse_us_for_angle(angle_deg) as u32),
        205 <= ticks <= 410,
{
    let pulse_us = servo_pulse_us_from_angle(angle_deg);
    proof {
        lemma_pulse_range(angle_deg);
    }
    let ticks = servo_duty_ticks_from_pulse_us(pulse_us);
    ticks
}

/// The servo angle for a throttle percentage.
pub fn throttle_angle_deg(percent: u16) -> (angle_deg: u16)
    requires
        throttle_fits(percent),
    ensures
        angle_deg == angle_for_throttle(percent),
{
    (percent * SERVO_MAX_ANGLE_DEG) / 100
}

/// Every angle gives a pulse between 1000 and 2000 us; angle zero gives
/// 1000 us and every angle from 180 degrees up gives 2000 us.
pub proof fn lemma_pulse_range(angle_deg: u16)
    ensures
        1000 <= pulse_us_for_angle(angle_deg) <= 2000,
        angle_deg == 0 ==> pulse_us_for_angle(angle_deg) == 1000,
        angle_deg >= 180 ==> pulse_us_for_angle(angle_deg) == 2000,
        205 <= duty_ticks_for_pulse(pulse_us_for_angle(angle_deg) as u32) <= 410,
{
}

/// A larger angle never gives a shorter pulse, nor fewer duty ticks.
pub proof fn lemma_pulse_monotone(low: u16, high: u16)
    requires
        low <= high,
    ensures
        pulse_us_for_angle(low) <= pulse_us_for_angle(high),
        duty_ticks_for_pulse(pulse_us_for_angle(low) as u32) <= duty_ticks_for_pulse(
            pulse_us_for_angle(high) as u32,
        ),
{
    lemma_pulse_range(low);
    lemma_pulse_range(high);
    let pl = pulse_us_for_angle(low);
    let ph = pulse_us_for_angle(high);
    assert((pl * 4096 + 10000) / 20000 <= (ph * 4096 + 10000) / 20000) by (nonlinear_arith)
        requires
            pl <= ph,
    ;
}

/// Throttles from 0 to 100 percent map onto angles from 0 to 180 degrees;
/// a larger throttle never gives a smaller angle.
pub proof fn lemma_throttle_angle_range(low: u16, high: u16)
    requires
        low <= high <= 100,
    ensures
        throttle_fits(low),
        throttle_fits(high),
        0 <= angle_for_throttle(low) <= angle_for_throttle(high) <= 180,
        angle_for_throttle(0) == 0,
        angle_for_throttle(100) == 180,
{
    assert((low as int * 180) / 100 <= (high as int * 180) / 100) by (nonlinear_arith)
        requires
            low <= high,
    ;
}

/// The angle for a throttle is the throttle scaled by 180/100 and rounded
/// down: `100 * angle <= 180 * percent < 100 * angle + 100`. Where the
/// 16-bit arithmetic fits, the angle is at most 655 degrees.
pub proof fn lemma_throttle_angle_is_scaled_throttle(percent: u16)
    ensures
        100 * angle_for_throttle(percent) <= 180 * percent,
        180 * percent < 100 * angle_for_throttle(percent) + 100,
        throttle_fits(percent) ==> 0 <= angle_for_throttle(percent) <= 655,
{
    let p = percent as int;
    let a = angle_for_throttle(percent);
    assert(100 * a <= 180 * p < 100 * a + 100) by (nonlinear_arith)
        requires
            a == (p * 180) / 100,
            0 <= p,
    ;
}

/// A higher throttle always gives a strictly higher angle: each extra
/// percent adds 1.8 degrees, so no two throttles share an angle.
pub proof fn lemma_throttle_angle_strictly_increasing(low: u16, high: u16)
    requires
        low < high,
    ensures
        angle_for_throttle(low) < angle_for_throttle(high),
{
    lemma_throttle_angle_is_scaled_throttle(low);
    lemma_throttle_angle_is_scaled_throttle(high);
}

/// For angles up to 180 degrees the pulse width maps the angle linearly onto
/// 1000..=2000 us, rounded to the nearest microsecond:
/// `180 * (pulse - 1000) <= 1000 * angle + 90 < 180 * (pulse - 1000) + 180`.
pub proof fn lemma_pulse_is_linear_in_angle(angle_deg: u16)
    requires
        angle_deg <= 180,
    ensures
        180 * (pulse_us_for_angle(angle_deg) - 1000) <= 1000 * angle_deg + 90,
        1000 * angle_deg + 90 < 180 * (pulse_us_for_angle(angle_deg) - 1000) + 180,
{
    let a = angle_deg as int;
    let q = pulse_us_for_angle(angle_deg) - 1000;
    assert(180 * q <= 1000 * a + 90 < 180 * q + 180) by (nonlinear_arith)
        requires
            q == (1000 * a + 90) / 180,
            0 <= a,
    ;
}

/// On 0..=180 degrees a larger angle always gives a pulse at least 5 us
/// longer: the pulse width is strictly increasing in the angle.
pub proof fn lemma_pulse_strictly_increasing(low: u16, high: u16)
    requires
        low < high <= 180,
    ensures
        pulse_us_for_angle(low) + 5 <= pulse_us_for_angle(high),
{
    lemma_pulse_is_linear_in_angle(low);
    lemma_pulse_is_linear_in_angle(high);
}

/// The duty ticks are the pulse's share of the 20 ms period at 12-bit
/// resolution, rounded to the nearest tick:
/// `20000 * ticks <= 4096 * pulse + 10000 < 20000 * ticks + 20000`.
pub proof fn lemma_duty_is_rounded_share_of_period(pulse_us: u32)
    ensures
        20000 * duty_ticks_for_pulse(pulse_us) <= 4096 * pulse_us + 10000,
        4096 * pulse_us + 10000 < 20000 * duty_ticks_for_pulse(pulse_us) + 20000,
{
    let p = pulse_us as int;
    let d = duty_ticks_for_pulse(pulse_us);
    assert(20000 * d <= 4096 * p + 10000 < 20000 * d + 20000) by (nonlinear_arith)
        requires
            d == (p * 4096 + 10000) / 20000,
            0 <= p,
    ;
}

} // verus!
