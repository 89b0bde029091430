use rustwood::monitor::MonitorState;
use rustwood::web::{apply_config_form, clamp_throttle_percent, ConfigForm, WEB_TASK_POOL_SIZE};
use rustwood::LedConfig;

#[test]
fn form_throttles_are_limited_to_100() {
    assert_eq!(WEB_TASK_POOL_SIZE, 2);
    assert_eq!(clamp_throttle_percent(0), 0);
    assert_eq!(clamp_throttle_percent(100), 100);
    assert_eq!(clamp_throttle_percent(101), 100);
    assert_eq!(clamp_throttle_percent(u16::MAX), 100);

    let mut config = LedConfig::default();
    let form = ConfigForm {
        motor_spare_throttle_percent: 150,
        motor_left_wheel_throttle_percent: 42,
        motor_right_wheel_throttle_percent: 100,
        motor_fan_throttle_percent: 101,
        motor_fan_idle_throttle_percent: 250,
        arm_wait_ms: 1234,
        on_duration_ms: 99,
        on_delay_ms: 7,
    };
    apply_config_form(&mut config, &form);
    assert_eq!(
        config,
        LedConfig {
            motor_spare_throttle_percent: 100,
            motor_left_wheel_throttle_percent: 42,
            motor_right_wheel_throttle_percent: 100,
            motor_fan_throttle_percent: 100,
            motor_fan_idle_throttle_percent: 100,
            arm_wait_ms: 1234,
            on_duration_ms: 99,
            on_delay_ms: 7,
        }
    );
    let again = config;
    apply_config_form(&mut config, &ConfigForm {
        motor_spare_throttle_percent: again.motor_spare_throttle_percent,
        motor_left_wheel_throttle_percent: again.motor_left_wheel_throttle_percent,
        motor_right_wheel_throttle_percent: again.motor_right_wheel_throttle_percent,
        motor_fan_throttle_percent: again.motor_fan_throttle_percent,
        motor_fan_idle_throttle_percent: again.motor_fan_idle_throttle_percent,
        arm_wait_ms: again.arm_wait_ms,
        on_duration_ms: again.on_duration_ms,
        on_delay_ms: again.on_delay_ms,
    });
    assert_eq!(config, again);
}

#[test]
fn form_idle_throttle_is_limited_and_always_steps() {
    let mut config = LedConfig::default();
    let form = ConfigForm {
        motor_spare_throttle_percent: 1000,
        motor_left_wheel_throttle_percent: 1000,
        motor_right_wheel_throttle_percent: 1000,
        motor_fan_throttle_percent: 1000,
        motor_fan_idle_throttle_percent: 1000,
        arm_wait_ms: 0,
        on_duration_ms: 0,
        on_delay_ms: 0,
    };
    apply_config_form(&mut config, &form);
    assert_eq!(config.motor_fan_idle_throttle_percent, 100);
    assert!(MonitorState::Arming(config).try_step(false, &config).is_some());
    assert!(MonitorState::ReleaseDebounce(config).try_step(true, &config).is_some());
    let mut kept = LedConfig::default();
    apply_config_form(&mut kept, &ConfigForm { motor_fan_idle_throttle_percent: 37, ..form });
    assert_eq!(kept.motor_fan_idle_throttle_percent, 37);
}
