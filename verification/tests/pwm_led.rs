use rustwood::monitor::DEBOUNCE_MS;
use rustwood::pwm_led::{apply_config_form, ConfigForm, LedCommand, LedConfig, LedMonitorState};
use rustwood::RgbColor;

#[test]
fn led_config_defaults_and_form() {
    let mut config = LedConfig::default();
    assert_eq!(config, LedConfig { duty_pct: 75, on_delay_ms: 1500 });
    apply_config_form(&mut config, &ConfigForm { duty_pct: 200, on_delay_ms: 10 });
    assert_eq!(config, LedConfig { duty_pct: 100, on_delay_ms: 10 });
    apply_config_form(&mut config, &ConfigForm { duty_pct: 33, on_delay_ms: 0 });
    assert_eq!(config, LedConfig { duty_pct: 33, on_delay_ms: 0 });
}

#[test]
fn led_sequence_full_cycle() {
    let blue = LedCommand::ShowColor(RgbColor::new(0, 0, 50));
    let config = LedConfig { duty_pct: 40, on_delay_ms: 900 };
    let (s, cmds) = LedMonitorState::start();
    assert_eq!((s, cmds), (LedMonitorState::AwaitingPress, vec![blue, LedCommand::WaitForLow]));
    let (s, cmds) = s.step(false, &config);
    assert_eq!(s, LedMonitorState::AwaitingRelease);
    assert_eq!(cmds, vec![LedCommand::ShowColor(RgbColor::new(50, 0, 0)), LedCommand::WaitForHigh]);
    let (s, cmds) = s.step(true, &config);
    assert_eq!((s, cmds), (LedMonitorState::ReleaseDebounce, vec![LedCommand::Sleep(DEBOUNCE_MS)]));
    let (s, cmds) = s.step(true, &config);
    assert_eq!(s, LedMonitorState::Active);
    assert_eq!(
        cmds,
        vec![
            LedCommand::ShowColor(RgbColor::new(0, 50, 0)),
            LedCommand::SetDutyPercent(40),
            LedCommand::Sleep(900),
        ]
    );
    let (s, cmds) = s.step(true, &config);
    assert_eq!(s, LedMonitorState::AwaitingPress);
    assert_eq!(cmds, vec![LedCommand::SetDutyPercent(0), blue, blue, LedCommand::WaitForLow]);
}

#[test]
fn led_bounce_after_release_returns_to_idle() {
    let blue = LedCommand::ShowColor(RgbColor::new(0, 0, 50));
    let (s, cmds) = LedMonitorState::ReleaseDebounce.step(false, &LedConfig::default());
    assert_eq!((s, cmds), (LedMonitorState::AwaitingPress, vec![blue, LedCommand::WaitForLow]));
}
