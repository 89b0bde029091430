//! The switch-driven motor sequence: idle (blue), arming (orange), armed
//! (red), activation delay (yellow), run (green), back to idle.
//!
//! The sequence is a state machine. Each step is taken when the wait that the
//! previous step asked for is over; it gets the switch level at that moment
//! and the live configuration, and returns the next state and the commands
//! to carry out, the last of which is the next wait.
use vstd::prelude::*;

use crate::servo::{
    angle_for_throttle, lemma_throttle_angle_is_scaled_throttle, throttle_angle_deg, throttle_fits,
};
use crate::{blue_at, green_at, orange_at, red_at, yellow_at, LedConfig, RgbColor};

verus! {

/// Brightness of the status colours on the NeoPixel.
pub const STATUS_BRIGHTNESS: u8 = 50;

/// Time given to the switch contacts to settle, in milliseconds.
pub const DEBOUNCE_MS: u64 = 20;

/// Angles of the four motor outputs, in degrees.
#[derive(Clone, Copy, Debug, PartialEq, Eq, Structural)]
pub struct ServoAngles {
    pub spare: u16,
    pub left_wheel: u16,
    pub right_wheel: u16,
    pub fan: u16,
}

/// One thing for the firmware to do.
#[derive(Clone, Copy, Debug, PartialEq, Eq, Structural)]
pub enum Command {
    /// Show a colour on the NeoPixel.
    ShowColor(RgbColor),
    /// Drive the four motor outputs to these angles.
    SetServoAngles(ServoAngles),
    /// Wait until the switch is closed (low).
    WaitForLow,
    /// Wait until the switch is open (high).
    WaitForHigh,
    /// Wait this many milliseconds.
    Sleep(u64),
}

/// Where the sequence stands: what it is waiting for.
#[derive(Clone, Copy, Debug, PartialEq, Eq, Structural)]
pub enum MonitorState {
    /// Idle, waiting for the switch to close.
    AwaitingPress,
    /// The switch closed; waiting for it to settle.
    PressDebounce,
    /// Held closed; waiting out the arm delay of this configuration.
    Arming(LedConfig),
    /// Armed; waiting for the switch to open.
    Armed(LedConfig),
    /// The switch opened; waiting for it to settle.
    ReleaseDebounce(LedConfig),
    /// Waiting out the activation delay before driving these angles for
    /// `on_duration_ms`.
    Delaying { angles: ServoAngles, on_duration_ms: u64 },
    /// Motors running; waiting out the run duration.
    Running,
}

/// All four motor outputs at rest.
pub open spec fn idle_angles() -> ServoAngles {
    ServoAngles { spare: 0, left_wheel: 0, right_wheel: 0, fan: 0 }
}

/// Angles while armed: only the fan runs, at its idle throttle.
pub open spec fn armed_angles(config: LedConfig) -> ServoAngles {
    ServoAngles {
        spare: 0,
        left_wheel: 0,
        right_wheel: 0,
        fan: angle_for_throttle(config.motor_fan_idle_throttle_percent) as u16,
    }
}

/// Angles while running: every motor at its configured throttle.
pub open spec fn run_angles(config: LedConfig) -> ServoAngles {
    ServoAngles {
        spare: angle_for_throttle(config.motor_spare_throttle_percent) as u16,
        left_wheel: angle_for_throttle(config.motor_left_wheel_throttle_percent) as u16,
        right_wheel: angle_for_throttle(config.motor_right_wheel_throttle_percent) as u16,
        fan: angle_for_throttle(config.motor_fan_throttle_percent) as u16,
    }
}

/// Return to idle: show blue and wait for the switch to close.
pub open spec fn idle_commands() -> Seq<Command> {
    seq![Command::ShowColor(blue_at(STATUS_BRIGHTNESS)), Command::WaitForLow]
}

impl MonitorState {
    /// Whether the step from this state, with the switch at `switch_high`,
    /// keeps its throttle-to-angle arithmetic within 16 bits.
    pub open spec fn step_defined(self, switch_high: bool) -> bool {
        match self {
            MonitorState::Arming(c) => switch_high || throttle_fits(c.motor_fan_idle_throttle_percent),
            MonitorState::ReleaseDebounce(c) => !switch_high || (throttle_fits(
                c.motor_spare_throttle_percent,
            ) && throttle_fits(c.motor_left_wheel_throttle_percent) && throttle_fits(
                c.motor_right_wheel_throttle_percent,
            ) && throttle_fits(c.motor_fan_throttle_percent)),
            _ => true,
        }
    }

    /// The next state and the commands of one step, where the switch reads
    /// `switch_high` and `config` is the live configuration.
    pub open spec fn next(self, switch_high: bool, config: LedConfig) -> (MonitorState, Seq<Command>) {
        match self {
            MonitorState::AwaitingPress => (
                MonitorState::PressDebounce,
                seq![Command::Sleep(DEBOUNCE_MS)],
            ),
            MonitorState::PressDebounce => if switch_high {
                (MonitorState::AwaitingPress, idle_commands())
            } else {
                (
                    MonitorState::Arming(config),
                    seq![
                        Command::ShowColor(orange_at(STATUS_BRIGHTNESS)),
                        Command::Sleep(config.arm_wait_ms),
                    ],
                )
            },
            MonitorState::Arming(c) => if switch_high {
                (MonitorState::AwaitingPress, idle_commands())
            } else {
                (
                    MonitorState::Armed(c),
                    seq![
                        Command::ShowColor(red_at(STATUS_BRIGHTNESS)),
                        Command::SetServoAngles(armed_angles(c)),
                        Command::WaitForHigh,
                    ],
                )
            },
            MonitorState::Armed(c) => (
                MonitorState::ReleaseDebounce(c),
                seq![Command::Sleep(DEBOUNCE_MS)],
            ),
            MonitorState::ReleaseDebounce(c) => if switch_high {
                (
                    MonitorState::Delaying { angles: run_angles(c), on_duration_ms: c.on_duration_ms },
                    seq![
                        Command::ShowColor(yellow_at(STATUS_BRIGHTNESS)),
                        Command::Sleep(c.on_delay_ms),
                    ],
                )
            } else {
                (MonitorState::AwaitingPress, idle_commands())
            },
            MonitorState::Delaying { angles, on_duration_ms } => (
                MonitorState::Running,
                seq![
                    Command::SetServoAngles(angles),
                    Command::ShowColor(green_at(STATUS_BRIGHTNESS)),
                    Command::Sleep(on_duration_ms),
                ],
            ),
            MonitorState::Running => (
                MonitorState::AwaitingPress,
                seq![
                    Command::SetServoAngles(idle_angles()),
                    Command::ShowColor(blue_at(STATUS_BRIGHTNESS)),
                ] + idle_commands(),
            ),
        }
    }
}

/// Commands that show blue and wait for the switch to close.
fn idle_command_vec() -> (commands: Vec<Command>)
    ensures
        commands@ == idle_commands(),
{
    let mut commands: Vec<Command> = Vec::new();
    commands.push(Command::ShowColor(RgbColor::blue(STATUS_BRIGHTNESS)));
    commands.push(Command::WaitForLow);
    assert(commands@ =~= idle_commands());
    commands
}

impl MonitorState {
    /// The start of the sequence: show blue and wait for the switch to close.
    pub fn start() -> (started: (MonitorState, Vec<Command>))
        ensures
            started.0 == MonitorState::AwaitingPress,
            started.1@ == idle_commands(),
    {
        (MonitorState::AwaitingPress, idle_command_vec())
    }

    /// One step of the sequence, taken when the last wait is over.
    pub fn step(self, switch_high: bool, config: &LedConfig) -> (stepped: (MonitorState, Vec<Command>))
        requires
            self.step_defined(switch_high),
        ensures
            (stepped.0, stepped.1@) == self.next(switch_high, *config),
    {
        let mut commands: Vec<Command> = Vec::new();
        match self {
            MonitorState::AwaitingPress => {
                commands.push(Command::Sleep(DEBOUNCE_MS));
                assert(commands@ =~= self.next(switch_high, *config).1);
                (MonitorState::PressDebounce, commands)
            },
            MonitorState::PressDebounce => {
                if switch_high {
                    (MonitorState::AwaitingPress, idle_command_vec())
                } else {
                    commands.push(Command::ShowColor(RgbColor::orange(STATUS_BRIGHTNESS)));
                    commands.push(Command::Sleep(config.arm_wait_ms));
                    assert(commands@ =~= self.next(switch_high, *config).1);
                    (MonitorState::Arming(*config), commands)
                }
            },
            MonitorState::Arming(c) => {
                if switch_high {
                    (MonitorState::AwaitingPress, idle_command_vec())
                } else {
                    let angles = ServoAngles {
                        spare: 0,
                        left_wheel: 0,
                        right_wheel: 0,
                        fan: throttle_angle_deg(c.motor_fan_idle_throttle_percent),
                    };
                    commands.push(Command::ShowColor(RgbColor::red(STATUS_BRIGHTNESS)));
                    commands.push(Command::SetServoAngles(angles));
                    commands.push(Command::WaitForHigh);
                    assert(commands@ =~= self.next(switch_high, *config).1);
                    (MonitorState::Armed(c), commands)
                }
            },
            MonitorState::Armed(c) => {
                commands.push(Command::Sleep(DEBOUNCE_MS));
                assert(commands@ =~= self.next(switch_high, *config).1);
                (MonitorState::ReleaseDebounce(c), commands)
            },
            MonitorState::ReleaseDebounce(c) => {
                if switch_high {
                    let angles = ServoAngles {
                        spare: throttle_angle_deg(c.motor_spare_throttle_percent),
                        left_wheel: throttle_angle_deg(c.motor_left_wheel_throttle_percent),
                        right_wheel: throttle_angle_deg(c.motor_right_wheel_throttle_percent),
                        fan: throttle_angle_deg(c.motor_fan_throttle_percent),
                    };
                    commands.push(Command::ShowColor(RgbColor::yellow(STATUS_BRIGHTNESS)));
                    commands.push(Command::Sleep(c.on_delay_ms));
                    assert(commands@ =~= self.next(switch_high, *config).1);
                    (MonitorState::Delaying { angles, on_duration_ms: c.on_duration_ms }, commands)
                } else {
                    (MonitorState::AwaitingPress, idle_command_vec())
                }
            },
            MonitorState::Delaying { angles, on_duration_ms } => {
                commands.push(Command::SetServoAngles(angles));
                commands.push(Command::ShowColor(RgbColor::green(STATUS_BRIGHTNESS)));
                commands.push(Command::Sleep(on_duration_ms));
                assert(commands@ =~= self.next(switch_high, *config).1);
                (MonitorState::Running, commands)
            },
            MonitorState::Running => {
                commands.push(
                    Command::SetServoAngles(
                        ServoAngles { spare: 0, left_wheel: 0, right_wheel: 0, fan: 0 },
                    ),
                );
                commands.push(Command::ShowColor(RgbColor::blue(STATUS_BRIGHTNESS)));
                commands.push(Command::ShowColor(RgbColor::blue(STATUS_BRIGHTNESS)));
                commands.push(Command::WaitForLow);
                assert(commands@ =~= self.next(switch_high, *config).1);
                (MonitorState::AwaitingPress, commands)
            },
        }
    }

    /// One step of the sequence, or `None` where a throttle is too large for
    /// the 16-bit throttle-to-angle arithmetic of that step.
    pub fn try_step(self, switch_high: bool, config: &LedConfig) -> (stepped: Option<
        (MonitorState, Vec<Command>),
    >)
        ensures
            stepped is Some <==> self.step_defined(switch_high),
            stepped matches Some(s) ==> (s.0, s.1@) == self.next(switch_high, *config),
    {
        let defined = match self {
            MonitorState::Arming(c) => switch_high || c.motor_fan_idle_throttle_percent <= 364,
            MonitorState::ReleaseDebounce(c) => !switch_high || (c.motor_spare_throttle_percent
                <= 364 && c.motor_left_wheel_throttle_percent <= 364
                && c.motor_right_wheel_throttle_percent <= 364 && c.motor_fan_throttle_percent
                <= 364),
            _ => true,
        };
        if defined {
            Some(self.step(switch_high, config))
        } else {
            None
        }
    }
}

/// Releasing the switch before the arm delay is over cancels the sequence:
/// it returns to idle (blue, waiting for a press) and drives no motor.
pub proof fn lemma_release_during_arming_cancels(snapshot: LedConfig, live: LedConfig)
    ensures
        MonitorState::Arming(snapshot).next(true, live) == (MonitorState::AwaitingPress, idle_commands()),
{
}

/// A press that does not survive the debounce, and a release that does not
/// survive it, both return to idle without driving the motors to their run
/// throttles.
pub proof fn lemma_bounces_return_to_idle(snapshot: LedConfig, live: LedConfig)
    ensures
        MonitorState::PressDebounce.next(true, live) == (MonitorState::AwaitingPress, idle_commands()),
        MonitorState::ReleaseDebounce(snapshot).next(false, live) == (
            MonitorState::AwaitingPress,
            idle_commands(),
        ),
{
}

/// After the run, every motor returns to rest, the NeoPixel shows blue and
/// the sequence waits for the next press.
pub proof fn lemma_run_ends_at_rest(switch_high: bool, live: LedConfig)
    ensures
        MonitorState::Running.next(switch_high, live).0 == MonitorState::AwaitingPress,
        MonitorState::Running.next(switch_high, live).1[0] == Command::SetServoAngles(idle_angles()),
        MonitorState::Running.next(switch_high, live).1.last() == Command::WaitForLow,
        MonitorState::Running.next(switch_high, live).1.contains(
            Command::ShowColor(blue_at(STATUS_BRIGHTNESS)),
        ),
{
    assert(MonitorState::Running.next(switch_high, live).1[2] == Command::ShowColor(
        blue_at(STATUS_BRIGHTNESS),
    ));
}

/// A full press-hold-release cycle: with the switch held through the arm
/// delay and released, the sequence goes orange, red (fan at its idle
/// throttle), yellow for the activation delay, green with every motor at its
/// configured throttle for the run duration, then back to rest and blue. The
/// whole cycle uses the configuration read at the press (`at_press`); later
/// changes (`later`) take effect at the next press only. The levels read by
/// steps that do not look at the switch (`any`) do not matter.
pub proof fn lemma_full_cycle(at_press: LedConfig, later: LedConfig, any: bool)
    requires
        MonitorState::Arming(at_press).step_defined(false),
        MonitorState::ReleaseDebounce(at_press).step_defined(true),
    ensures
        MonitorState::AwaitingPress.next(any, at_press) == (
            MonitorState::PressDebounce,
            seq![Command::Sleep(DEBOUNCE_MS)],
        ),
        MonitorState::PressDebounce.next(false, at_press) == (
            MonitorState::Arming(at_press),
            seq![
                Command::ShowColor(orange_at(STATUS_BRIGHTNESS)),
                Command::Sleep(at_press.arm_wait_ms),
            ],
        ),
        MonitorState::Arming(at_press).next(false, later) == (
            MonitorState::Armed(at_press),
            seq![
                Command::ShowColor(red_at(STATUS_BRIGHTNESS)),
                Command::SetServoAngles(armed_angles(at_press)),
                Command::WaitForHigh,
            ],
        ),
        MonitorState::Armed(at_press).next(any, later) == (
            MonitorState::ReleaseDebounce(at_press),
            seq![Command::Sleep(DEBOUNCE_MS)],
        ),
        MonitorState::ReleaseDebounce(at_press).next(true, later) == (
            MonitorState::Delaying {
                angles: run_angles(at_press),
                on_duration_ms: at_press.on_duration_ms,
            },
            seq![
                Command::ShowColor(yellow_at(STATUS_BRIGHTNESS)),
                Command::Sleep(at_press.on_delay_ms),
            ],
        ),
        (MonitorState::Delaying {
            angles: run_angles(at_press),
            on_duration_ms: at_press.on_duration_ms,
        }).next(any, later) == (
            MonitorState::Running,
            seq![
                Command::SetServoAngles(run_angles(at_press)),
                Command::ShowColor(green_at(STATUS_BRIGHTNESS)),
                Command::Sleep(at_press.on_duration_ms),
            ],
        ),
        MonitorState::Running.next(any, later) == (
            MonitorState::AwaitingPress,
            seq![
                Command::SetServoAngles(idle_angles()),
                Command::ShowColor(blue_at(STATUS_BRIGHTNESS)),
                Command::ShowColor(blue_at(STATUS_BRIGHTNESS)),
                Command::WaitForLow,
            ],
        ),
{
    assert(MonitorState::Running.next(any, later).1 =~= seq![
        Command::SetServoAngles(idle_angles()),
        Command::ShowColor(blue_at(STATUS_BRIGHTNESS)),
        Command::ShowColor(blue_at(STATUS_BRIGHTNESS)),
        Command::WaitForLow,
    ]);
}

/// The motors are only ever driven to one of three sets of angles: all at
/// rest, the armed angles (fan at its idle throttle, from the configuration
/// snapshotted at the press, and only while the switch is still held after
/// the arm delay) or the run angles carried into the run.
pub proof fn lemma_servo_commands(state: MonitorState, switch_high: bool, live: LedConfig, i: int)
    requires
        0 <= i < state.next(switch_high, live).1.len(),
        state.next(switch_high, live).1[i] is SetServoAngles,
    ensures
        ({
            let angles = state.next(switch_high, live).1[i]->SetServoAngles_0;
            ||| state == MonitorState::Running && angles == idle_angles()
            ||| (state matches MonitorState::Arming(c) && !switch_high && angles == armed_angles(c))
            ||| (state matches MonitorState::Delaying { angles: a, on_duration_ms: _ } && angles == a)
        }),
{
    let cmds = state.next(switch_high, live).1;
    match state {
        MonitorState::Running => {
            assert(cmds =~= seq![
                Command::SetServoAngles(idle_angles()),
                Command::ShowColor(blue_at(STATUS_BRIGHTNESS)),
                Command::ShowColor(blue_at(STATUS_BRIGHTNESS)),
                Command::WaitForLow,
            ]);
        },
        _ => {},
    }
}

/// When the release survives its debounce, each motor's run angle is its own
/// throttle scaled by 180/100 and rounded down (`100 * angle <= 180 *
/// throttle < 100 * angle + 100`), so no motor's angle depends on another
/// motor's throttle; the run lasts the on-duration of the configuration
/// snapshotted at the press, and the live configuration plays no part.
pub proof fn lemma_run_angles_follow_own_throttles(snapshot: LedConfig, live: LedConfig)
    requires
        MonitorState::ReleaseDebounce(snapshot).step_defined(true),
    ensures
        ({
            let next = MonitorState::ReleaseDebounce(snapshot).next(true, live).0;
            &&& next matches MonitorState::Delaying { angles, on_duration_ms }
            &&& next->on_duration_ms == snapshot.on_duration_ms
            &&& 100 * next->angles.spare <= 180 * snapshot.motor_spare_throttle_percent < 100
                * next->angles.spare + 100
            &&& 100 * next->angles.left_wheel <= 180 * snapshot.motor_left_wheel_throttle_percent
                < 100 * next->angles.left_wheel + 100
            &&& 100 * next->angles.right_wheel <= 180 * snapshot.motor_right_wheel_throttle_percent
                < 100 * next->angles.right_wheel + 100
            &&& 100 * next->angles.fan <= 180 * snapshot.motor_fan_throttle_percent < 100
                * next->angles.fan + 100
        }),
{
    lemma_throttle_angle_is_scaled_throttle(snapshot.motor_spare_throttle_percent);
    lemma_throttle_angle_is_scaled_throttle(snapshot.motor_left_wheel_throttle_percent);
    lemma_throttle_angle_is_scaled_throttle(snapshot.motor_right_wheel_throttle_percent);
    lemma_throttle_angle_is_scaled_throttle(snapshot.motor_fan_throttle_percent);
}

/// When the switch is still held after the arm delay, the spare and wheel
/// motors stay at rest and the fan runs at its idle throttle scaled by
/// 180/100 and rounded down.
pub proof fn lemma_armed_fan_follows_idle_throttle(snapshot: LedConfig, live: LedConfig)
    requires
        MonitorState::Arming(snapshot).step_defined(false),
    ensures
        ({
            let commands = MonitorState::Arming(snapshot).next(false, live).1;
            &&& commands[1] matches Command::SetServoAngles(angles)
            &&& commands[1]->SetServoAngles_0.spare == 0
            &&& commands[1]->SetServoAngles_0.left_wheel == 0
            &&& commands[1]->SetServoAngles_0.right_wheel == 0
            &&& 100 * commands[1]->SetServoAngles_0.fan <= 180
                * snapshot.motor_fan_idle_throttle_percent < 100
                * commands[1]->SetServoAngles_0.fan + 100
        }),
{
    lemma_throttle_angle_is_scaled_throttle(snapshot.motor_fan_idle_throttle_percent);
}

/// A configuration whose five throttles are at most 100 % (every
/// configuration that the form or the defaults give) never makes a step
/// leave the 16-bit throttle arithmetic, whatever the switch reads.
pub proof fn lemma_bounded_throttles_always_step(config: LedConfig, switch_high: bool)
    requires
        config.motor_spare_throttle_percent <= 100,
        config.motor_left_wheel_throttle_percent <= 100,
        config.motor_right_wheel_throttle_percent <= 100,
        config.motor_fan_throttle_percent <= 100,
        config.motor_fan_idle_throttle_percent <= 100,
    ensures
        MonitorState::Arming(config).step_defined(switch_high),
        MonitorState::ReleaseDebounce(config).step_defined(switch_high),
{
}

/// The state after the first `k` steps of a run that starts idle, where step
/// `i` reads the switch level `levels[i]` and the live configuration
/// `configs[i]`.
pub open spec fn trace_state(levels: Seq<bool>, configs: Seq<LedConfig>, k: nat) -> MonitorState
    decreases k,
{
    if k == 0 {
        MonitorState::AwaitingPress
    } else {
        trace_state(levels, configs, (k - 1) as nat).next(levels[k - 1], configs[k - 1]).0
    }
}

/// The commands of step `k` of that run.
pub open spec fn trace_commands(levels: Seq<bool>, configs: Seq<LedConfig>, k: nat) -> Seq<Command> {
    trace_state(levels, configs, k).next(levels[k as int], configs[k as int]).1
}

/// Over any run that starts idle, with any switch levels and any live
/// configurations: a command that gives the spare motor or a wheel motor a
/// non-zero angle is step `k`'s first command, and it comes only after the
/// whole sequence. Five steps earlier the run was idle, entered by waiting for
/// the switch to close (or at the start); the switch then read closed after
/// the 20 ms debounce and again after the arm delay of the configuration read
/// at that debounce, then, after the wait for release, read open after the
/// 20 ms release debounce, and the activation delay followed. The angles are
/// the run angles of that configuration; the same step ends with a wait of
/// its run duration, and the next step, whatever it reads, first puts every
/// motor back at rest.
pub proof fn lemma_motors_run_only_after_full_sequence(
    levels: Seq<bool>,
    configs: Seq<LedConfig>,
    k: nat,
    i: int,
    angles: ServoAngles,
    next_high: bool,
    next_config: LedConfig,
)
    requires
        levels.len() == configs.len(),
        k < levels.len(),
        0 <= i < trace_commands(levels, configs, k).len(),
        trace_commands(levels, configs, k)[i] == Command::SetServoAngles(angles),
        angles.spare != 0 || angles.left_wheel != 0 || angles.right_wheel != 0,
    ensures
        k >= 5,
        i == 0,
        trace_state(levels, configs, (k - 5) as nat) == MonitorState::AwaitingPress,
        k == 5 || trace_commands(levels, configs, (k - 6) as nat).last() == Command::WaitForLow,
        trace_commands(levels, configs, (k - 5) as nat) == seq![Command::Sleep(DEBOUNCE_MS)],
        !levels[k - 4],
        trace_commands(levels, configs, (k - 4) as nat) == seq![
            Command::ShowColor(orange_at(STATUS_BRIGHTNESS)),
            Command::Sleep(configs[k - 4].arm_wait_ms),
        ],
        !levels[k - 3],
        trace_commands(levels, configs, (k - 3) as nat).last() == Command::WaitForHigh,
        trace_commands(levels, configs, (k - 2) as nat) == seq![Command::Sleep(DEBOUNCE_MS)],
        levels[k - 1],
        trace_commands(levels, configs, (k - 1) as nat) == seq![
            Command::ShowColor(yellow_at(STATUS_BRIGHTNESS)),
            Command::Sleep(configs[k - 4].on_delay_ms),
        ],
        angles == run_angles(configs[k - 4]),
        trace_commands(levels, configs, k) == seq![
            Command::SetServoAngles(angles),
            Command::ShowColor(green_at(STATUS_BRIGHTNESS)),
            Command::Sleep(configs[k - 4].on_duration_ms),
        ],
        trace_state(levels, configs, k + 1) == MonitorState::Running,
        MonitorState::Running.next(next_high, next_config).1[0] == Command::SetServoAngles(
            idle_angles(),
        ),
{
    let s = trace_state(levels, configs, k);
    lemma_servo_commands(s, levels[k as int], configs[k as int], i);
    // Only the run step drives the spare or wheel motors away from rest.
    let on_duration_ms = s->on_duration_ms;
    assert(s == MonitorState::Delaying { angles, on_duration_ms });
    // Walk back through the states that alone lead into the run step.
    assert(k >= 1);
    let s1 = trace_state(levels, configs, (k - 1) as nat);
    assert(s1 matches MonitorState::ReleaseDebounce(_));
    let c = s1->ReleaseDebounce_0;
    assert(k >= 2);
    let s2 = trace_state(levels, configs, (k - 2) as nat);
    assert(s2 == MonitorState::Armed(c));
    assert(k >= 3);
    let s3 = trace_state(levels, configs, (k - 3) as nat);
    assert(s3 == MonitorState::Arming(c));
    assert(k >= 4);
    let s4 = trace_state(levels, configs, (k - 4) as nat);
    assert(s4 == MonitorState::PressDebounce);
    assert(c == configs[k - 4]);
    assert(k >= 5);
    let s5 = trace_state(levels, configs, (k - 5) as nat);
    assert(s5 == MonitorState::AwaitingPress);
    if k > 5 {
        let s6 = trace_state(levels, configs, (k - 6) as nat);
        let cmds6 = trace_commands(levels, configs, (k - 6) as nat);
        assert(s6.next(levels[k - 6], configs[k - 6]).0 == MonitorState::AwaitingPress);
        if s6 == MonitorState::Running {
            assert(cmds6 =~= seq![
                Command::SetServoAngles(idle_angles()),
                Command::ShowColor(blue_at(STATUS_BRIGHTNESS)),
                Command::ShowColor(blue_at(STATUS_BRIGHTNESS)),
                Command::WaitForLow,
            ]);
        }
    }
    assert(trace_state(levels, configs, k + 1) == s.next(levels[k as int], configs[k as int]).0);
    assert(MonitorState::Running.next(next_high, next_config).1 =~= seq![
        Command::SetServoAngles(idle_angles()),
        Command::ShowColor(blue_at(STATUS_BRIGHTNESS)),
        Command::ShowColor(blue_at(STATUS_BRIGHTNESS)),
        Command::WaitForLow,
    ]);
}

} // verus!
