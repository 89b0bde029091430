use rustwood::{LedConfig, RgbColor};

#[test]
fn rgb_with_brightness_zero_turns_off_all_channels() {
    let color = RgbColor::rgb_with_brightness(120, 200, 255, 0);
    assert_eq!(color, RgbColor::new(0, 0, 0));
}

#[test]
fn rgb_with_brightness_full_keeps_original_channels() {
    let color = RgbColor::rgb_with_brightness(12, 34, 56, 255);
    assert_eq!(color, RgbColor::new(12, 34, 56));
}

#[test]
fn with_brightness_scales_each_channel_consistently() {
    let color = RgbColor::new(255, 128, 64).with_brightness(128);
    assert_eq!(color, RgbColor::new(128, 64, 32));
}

#[test]
fn named_color_shortcuts_match_expected_channels() {
    assert_eq!(RgbColor::blue(255), RgbColor::new(0, 0, 255));
    assert_eq!(RgbColor::green(255), RgbColor::new(0, 255, 0));
    assert_eq!(RgbColor::red(255), RgbColor::new(255, 0, 0));
    assert_eq!(RgbColor::yellow(255), RgbColor::new(255, 255, 0));
    assert_eq!(RgbColor::orange(255), RgbColor::new(255, 165, 0));
}

#[test]
fn named_color_shortcuts_apply_brightness() {
    assert_eq!(RgbColor::blue(64), RgbColor::new(0, 0, 64));
    assert_eq!(RgbColor::green(64), RgbColor::new(0, 64, 0));
    assert_eq!(RgbColor::red(64), RgbColor::new(64, 0, 0));
}

#[test]
fn status_brightness_colors_round_down() {
    assert_eq!(RgbColor::blue(50), RgbColor::new(0, 0, 50));
    assert_eq!(RgbColor::orange(50), RgbColor::new(50, 32, 0));
    assert_eq!(RgbColor::yellow(50), RgbColor::new(50, 50, 0));
    assert_eq!(RgbColor::new(1, 254, 100).with_brightness(1), RgbColor::new(0, 0, 0));
    assert_eq!(RgbColor::new(255, 254, 100).with_brightness(254), RgbColor::new(254, 253, 99));
}

#[test]
fn brightness_never_brightens_and_is_monotone() {
    let base = RgbColor::new(200, 17, 255);
    let mut previous = base.with_brightness(0);
    for brightness in 0..=255u8 {
        let scaled = base.with_brightness(brightness);
        assert!(scaled.r <= base.r && scaled.g <= base.g && scaled.b <= base.b);
        assert!(scaled.r >= previous.r && scaled.g >= previous.g && scaled.b >= previous.b);
        previous = scaled;
    }
}

#[test]
fn motor_config_defaults() {
    let config = LedConfig::default();
    assert_eq!(config.motor_spare_throttle_percent, 0);
    assert_eq!(config.motor_left_wheel_throttle_percent, 20);
    assert_eq!(config.motor_right_wheel_throttle_percent, 20);
    assert_eq!(config.motor_fan_throttle_percent, 20);
    assert_eq!(config.motor_fan_idle_throttle_percent, 0);
    assert_eq!(config.arm_wait_ms, 500);
    assert_eq!(config.on_duration_ms, 1500);
    assert_eq!(config.on_delay_ms, 0);
}
