use rustwood::monitor::{Command, MonitorState, ServoAngles, DEBOUNCE_MS, STATUS_BRIGHTNESS};
use rustwood::{LedConfig, RgbColor};

fn config() -> LedConfig {
    LedConfig {
        motor_spare_throttle_percent: 10,
        motor_left_wheel_throttle_percent: 50,
        motor_right_wheel_throttle_percent: 60,
        motor_fan_throttle_percent: 100,
        motor_fan_idle_throttle_percent: 25,
        arm_wait_ms: 700,
        on_duration_ms: 1500,
        on_delay_ms: 250,
    }
}

fn blue() -> Command {
    Command::ShowColor(RgbColor::blue(STATUS_BRIGHTNESS))
}

const REST: ServoAngles = ServoAngles { spare: 0, left_wheel: 0, right_wheel: 0, fan: 0 };

#[test]
fn monitor_starts_idle_blue() {
    let (state, commands) = MonitorState::start();
    assert_eq!(state, MonitorState::AwaitingPress);
    assert_eq!(commands, vec![blue(), Command::WaitForLow]);
    assert_eq!(blue(), Command::ShowColor(RgbColor::new(0, 0, 50)));
}

#[test]
fn monitor_full_cycle() {
    let c = config();
    let (s, cmds) = MonitorState::AwaitingPress.step(false, &c);
    assert_eq!(s, MonitorState::PressDebounce);
    assert_eq!(cmds, vec![Command::Sleep(DEBOUNCE_MS)]);

    let (s, cmds) = s.step(false, &c);
    assert_eq!(s, MonitorState::Arming(c));
    assert_eq!(cmds, vec![Command::ShowColor(RgbColor::orange(50)), Command::Sleep(700)]);

    // A change made during the sequence takes effect at the next press only.
    let later = LedConfig::default();
    let (s, cmds) = s.step(false, &later);
    assert_eq!(s, MonitorState::Armed(c));
    assert_eq!(
        cmds,
        vec![
            Command::ShowColor(RgbColor::red(50)),
            Command::SetServoAngles(ServoAngles { spare: 0, left_wheel: 0, right_wheel: 0, fan: 45 }),
            Command::WaitForHigh,
        ]
    );

    let (s, cmds) = s.step(true, &later);
    assert_eq!(s, MonitorState::ReleaseDebounce(c));
    assert_eq!(cmds, vec![Command::Sleep(DEBOUNCE_MS)]);

    let run = ServoAngles { spare: 18, left_wheel: 90, right_wheel: 108, fan: 180 };
    let (s, cmds) = s.step(true, &later);
    assert_eq!(s, MonitorState::Delaying { angles: run, on_duration_ms: 1500 });
    assert_eq!(cmds, vec![Command::ShowColor(RgbColor::yellow(50)), Command::Sleep(250)]);

    let (s, cmds) = s.step(true, &later);
    assert_eq!(s, MonitorState::Running);
    assert_eq!(
        cmds,
        vec![
            Command::SetServoAngles(run),
            Command::ShowColor(RgbColor::green(50)),
            Command::Sleep(1500),
        ]
    );

    let (s, cmds) = s.step(false, &later);
    assert_eq!(s, MonitorState::AwaitingPress);
    assert_eq!(cmds, vec![Command::SetServoAngles(REST), blue(), blue(), Command::WaitForLow]);
}

#[test]
fn monitor_bounces_and_early_release_return_to_idle() {
    let c = config();
    let (s, cmds) = MonitorState::PressDebounce.step(true, &c);
    assert_eq!((s, cmds), (MonitorState::AwaitingPress, vec![blue(), Command::WaitForLow]));
    let (s, cmds) = MonitorState::Arming(c).step(true, &c);
    assert_eq!((s, cmds), (MonitorState::AwaitingPress, vec![blue(), Command::WaitForLow]));
    let (s, cmds) = MonitorState::ReleaseDebounce(c).step(false, &c);
    assert_eq!((s, cmds), (MonitorState::AwaitingPress, vec![blue(), Command::WaitForLow]));
}

#[test]
fn monitor_try_step_refuses_overflowing_throttles() {
    let mut c = config();
    c.motor_fan_idle_throttle_percent = 365;
    assert_eq!(MonitorState::Arming(c).try_step(false, &c), None);
    assert!(MonitorState::Arming(c).try_step(true, &c).is_some());
    c.motor_fan_idle_throttle_percent = 364;
    let (s, cmds) = MonitorState::Arming(c).try_step(false, &c).unwrap();
    assert_eq!(s, MonitorState::Armed(c));
    assert_eq!(
        cmds[1],
        Command::SetServoAngles(ServoAngles { spare: 0, left_wheel: 0, right_wheel: 0, fan: 655 })
    );
    let mut d = config();
    d.motor_left_wheel_throttle_percent = 1000;
    assert_eq!(MonitorState::ReleaseDebounce(d).try_step(true, &d), None);
    assert!(MonitorState::ReleaseDebounce(d).try_step(false, &d).is_some());
}
