//! What the configuration page does with a submitted form.
use vstd::prelude::*;

use crate::LedConfig;

verus! {

/// Number of HTTP server tasks.
pub const WEB_TASK_POOL_SIZE: usize = 2;

/// Largest throttle that the form can set for a motor, in percent.
pub const MAX_THROTTLE_PERCENT: u16 = 100;

/// The values submitted by the configuration form.
#[derive(Clone, Copy, Debug, PartialEq, Eq, Structural)]
pub struct ConfigForm {
    pub motor_spare_throttle_percent: u16,
    pub motor_left_wheel_throttle_percent: u16,
    pub motor_right_wheel_throttle_percent: u16,
    pub motor_fan_throttle_percent: u16,
    pub motor_fan_idle_throttle_percent: u16,
    pub arm_wait_ms: u64,
    pub on_duration_ms: u64,
    pub on_delay_ms: u64,
}

/// `percent`, limited to 100.
pub open spec fn clamped_percent(percent: u16) -> u16 {
    if percent <= MAX_THROTTLE_PERCENT {
        percent
    } else {
        MAX_THROTTLE_PERCENT
    }
}

/// The configuration that a submitted form sets: the five throttles (the
/// four motors and the fan idle throttle) limited to 100 %, the three timings
/// as given.
pub open spec fn form_config(form: ConfigForm) -> LedConfig {
    LedConfig {
        motor_spare_throttle_percent: clamped_percent(form.motor_spare_throttle_percent),
        motor_left_wheel_throttle_percent: clamped_percent(form.motor_left_wheel_throttle_percent),
        motor_right_wheel_throttle_percent: clamped_percent(form.motor_right_wheel_throttle_percent),
        motor_fan_throttle_percent: clamped_percent(form.motor_fan_throttle_percent),
        motor_fan_idle_throttle_percent: clamped_percent(form.motor_fan_idle_throttle_percent),
        arm_wait_ms: form.arm_wait_ms,
        on_duration_ms: form.on_duration_ms,
        on_delay_ms: form.on_delay_ms,
    }
}

/// A throttle percentage limited to 100.
pub fn clamp_throttle_percent(percent: u16) -> (clamped: u16)
    ensures
        clamped == clamped_percent(percent),
{
    if percent < MAX_THROTTLE_PERCENT {
        percent
    } else {
        MAX_THROTTLE_PERCENT
    }
}

/// Applies a submitted form to the live configuration.
pub fn apply_config_form(config: &mut LedConfig, form: &ConfigForm)
    ensures
        *final(config) == form_config(*form),
{
    config.motor_spare_throttle_percent = clamp_throttle_percent(form.motor_spare_throttle_percent);
    config.motor_left_wheel_throttle_percent = clamp_throttle_percent(
        form.motor_left_wheel_throttle_percent,
    );
    config.motor_right_wheel_throttle_percent = clamp_throttle_percent(
        form.motor_right_wheel_throttle_percent,
    );
    config.motor_fan_throttle_percent = clamp_throttle_percent(form.motor_fan_throttle_percent);
    config.motor_fan_idle_throttle_percent = clamp_throttle_percent(
        form.motor_fan_idle_throttle_percent,
    );
    config.arm_wait_ms = form.arm_wait_ms;
    config.on_duration_ms = form.on_duration_ms;
    config.on_delay_ms = form.on_delay_ms;
}

/// After a form is applied, no throttle is above 100 %, throttles of at most
/// 100 % are kept as submitted, and applying the resulting values again
/// changes nothing.
pub proof fn lemma_form_limits_throttles(form: ConfigForm)
    ensures
        form_config(form).motor_spare_throttle_percent <= 100,
        form_config(form).motor_left_wheel_throttle_percent <= 100,
        form_config(form).motor_right_wheel_throttle_percent <= 100,
        form_config(form).motor_fan_throttle_percent <= 100,
        form_config(form).motor_fan_idle_throttle_percent <= 100,
        form.motor_spare_throttle_percent <= 100 ==> form_config(form).motor_spare_throttle_percent
            == form.motor_spare_throttle_percent,
        form.motor_left_wheel_throttle_percent <= 100 ==> form_config(
            form,
        ).motor_left_wheel_throttle_percent == form.motor_left_wheel_throttle_percent,
        form.motor_right_wheel_throttle_percent <= 100 ==> form_config(
            form,
        ).motor_right_wheel_throttle_percent == form.motor_right_wheel_throttle_percent,
        form.motor_fan_throttle_percent <= 100 ==> form_config(form).motor_fan_throttle_percent
            == form.motor_fan_throttle_percent,
        form.motor_fan_idle_throttle_percent <= 100 ==> form_config(
            form,
        ).motor_fan_idle_throttle_percent == form.motor_fan_idle_throttle_percent,
        ({
            let c = form_config(form);
            form_config(
                ConfigForm {
                    motor_spare_throttle_percent: c.motor_spare_throttle_percent,
                    motor_left_wheel_throttle_percent: c.motor_left_wheel_throttle_percent,
                    motor_right_wheel_throttle_percent: c.motor_right_wheel_throttle_percent,
                    motor_fan_throttle_percent: c.motor_fan_throttle_percent,
                    motor_fan_idle_throttle_percent: c.motor_fan_idle_throttle_percent,
                    arm_wait_ms: c.arm_wait_ms,
                    on_duration_ms: c.on_duration_ms,
                    on_delay_ms: c.on_delay_ms,
                },
            ) == c
        }),
{
}

/// Applying a form stores its three timings exactly as submitted, and each
/// of its five throttles as the submitted value limited to 100: never above
/// 100, never above what was submitted, and equal to it when it is at most
/// 100. Nothing of the previous configuration survives.
pub proof fn lemma_form_stores_submitted_values(form: ConfigForm)
    ensures
        form_config(form).arm_wait_ms == form.arm_wait_ms,
        form_config(form).on_duration_ms == form.on_duration_ms,
        form_config(form).on_delay_ms == form.on_delay_ms,
        form_config(form).motor_spare_throttle_percent == if form.motor_spare_throttle_percent
            <= 100 {
            form.motor_spare_throttle_percent
        } else {
            100
        },
        form_config(form).motor_left_wheel_throttle_percent == if form.motor_left_wheel_throttle_percent
            <= 100 {
            form.motor_left_wheel_throttle_percent
        } else {
            100
        },
        form_config(form).motor_right_wheel_throttle_percent == if form.motor_right_wheel_throttle_percent
            <= 100 {
            form.motor_right_wheel_throttle_percent
        } else {
            100
        },
        form_config(form).motor_fan_throttle_percent == if form.motor_fan_throttle_percent <= 100 {
            form.motor_fan_throttle_percent
        } else {
            100
        },
        form_config(form).motor_fan_idle_throttle_percent == if form.motor_fan_idle_throttle_percent
            <= 100 {
            form.motor_fan_idle_throttle_percent
        } else {
            100
        },
{
}

} // verus!
