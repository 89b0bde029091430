//! The single PWM LED controller: its configuration, what its configuration
//! form does, and its switch sequence (idle blue, armed red, then green with
//! the LED on at the configured duty for the configured time).
use vstd::prelude::*;

use crate::monitor::{DEBOUNCE_MS, STATUS_BRIGHTNESS};
use crate::{blue_at, green_at, red_at, RgbColor};

verus! {

/// Largest duty cycle the form can set, in percent.
pub const MAX_DUTY_PERCENT: u8 = 100;

/// Shared LED configuration, updated via the web UI.
#[derive(Clone, Copy, Debug, PartialEq, Eq, Structural)]
pub struct LedConfig {
    pub duty_pct: u8,
    pub on_delay_ms: u64,
}

impl LedConfig {
    /// The factory configuration: 75 % duty for 1500 ms.
    pub open spec fn factory() -> LedConfig {
        LedConfig { duty_pct: 75, on_delay_ms: 1500 }
    }
}

impl Default for LedConfig {
    fn default() -> (config: Self)
        ensures
            config == LedConfig::factory(),
    {
        Self { duty_pct: 75, on_delay_ms: 1500 }
    }
}

/// The values submitted by the LED configuration form.
#[derive(Clone, Copy, Debug, PartialEq, Eq, Structural)]
pub struct ConfigForm {
    pub duty_pct: u8,
    pub on_delay_ms: u64,
}

/// The configuration that a submitted form sets: the duty limited to 100 %,
/// the on-time as given.
pub open spec fn form_config(form: ConfigForm) -> LedConfig {
    LedConfig {
        duty_pct: if form.duty_pct <= MAX_DUTY_PERCENT {
            form.duty_pct
        } else {
            MAX_DUTY_PERCENT
        },
        on_delay_ms: form.on_delay_ms,
    }
}

/// Applies a submitted form to the live configuration.
pub fn apply_config_form(config: &mut LedConfig, form: &ConfigForm)
    ensures
        *final(config) == form_config(*form),
        final(config).duty_pct <= MAX_DUTY_PERCENT,
{
    config.duty_pct = if form.duty_pct < MAX_DUTY_PERCENT {
        form.duty_pct
    } else {
        MAX_DUTY_PERCENT
    };
    config.on_delay_ms = form.on_delay_ms;
}

/// Applying an LED form stores its on-time exactly as submitted and its duty
/// limited to 100: the submitted duty when it is at most 100, else 100.
pub proof fn lemma_led_form_stores_submitted_values(form: ConfigForm)
    ensures
        form_config(form).on_delay_ms == form.on_delay_ms,
        form_config(form).duty_pct == if form.duty_pct <= 100 {
            form.duty_pct
        } else {
            100
        },
{
}

/// One thing for the LED firmware to do.
#[derive(Clone, Copy, Debug, PartialEq, Eq, Structural)]
pub enum LedCommand {
    /// Show a colour on the NeoPixel.
    ShowColor(RgbColor),
    /// Set the PWM LED to this duty cycle, in percent.
    SetDutyPercent(u8),
    /// Wait until the switch is closed (low).
    WaitForLow,
    /// Wait until the switch is open (high).
    WaitForHigh,
    /// Wait this many milliseconds.
    Sleep(u64),
}

/// Where the LED sequence stands: what it is waiting for.
#[derive(Clone, Copy, Debug, PartialEq, Eq, Structural)]
pub enum LedMonitorState {
    /// Idle, waiting for the switch to close.
    AwaitingPress,
    /// Armed, waiting for the switch to open.
    AwaitingRelease,
    /// The switch opened; waiting for it to settle.
    ReleaseDebounce,
    /// The LED is on; waiting out its on-time.
    Active,
}

/// Return to idle: show blue and wait for the switch to close.
pub open spec fn led_idle_commands() -> Seq<LedCommand> {
    seq![LedCommand::ShowColor(blue_at(STATUS_BRIGHTNESS)), LedCommand::WaitForLow]
}

impl LedMonitorState {
    /// The next state and the commands of one step, where the switch reads
    /// `switch_high` and `config` is the live configuration.
    pub open spec fn next(self, switch_high: bool, config: LedConfig) -> (LedMonitorState, Seq<LedCommand>) {
        match self {
            LedMonitorState::AwaitingPress => (
                LedMonitorState::AwaitingRelease,
                seq![LedCommand::ShowColor(red_at(STATUS_BRIGHTNESS)), LedCommand::WaitForHigh],
            ),
            LedMonitorState::AwaitingRelease => (
                LedMonitorState::ReleaseDebounce,
                seq![LedCommand::Sleep(DEBOUNCE_MS)],
            ),
            LedMonitorState::ReleaseDebounce => if switch_high {
                (
                    LedMonitorState::Active,
                    seq![
                        LedCommand::ShowColor(green_at(STATUS_BRIGHTNESS)),
                        LedCommand::SetDutyPercent(config.duty_pct),
                        LedCommand::Sleep(config.on_delay_ms),
                    ],
                )
            } else {
                (LedMonitorState::AwaitingPress, led_idle_commands())
            },
            LedMonitorState::Active => (
                LedMonitorState::AwaitingPress,
                seq![
                    LedCommand::SetDutyPercent(0),
                    LedCommand::ShowColor(blue_at(STATUS_BRIGHTNESS)),
                ] + led_idle_commands(),
            ),
        }
    }

    /// The start of the sequence: show blue and wait for the switch to close.
    pub fn start() -> (started: (LedMonitorState, Vec<LedCommand>))
        ensures
            started.0 == LedMonitorState::AwaitingPress,
            started.1@ == led_idle_commands(),
    {
        let mut commands: Vec<LedCommand> = Vec::new();
        commands.push(LedCommand::ShowColor(RgbColor::blue(STATUS_BRIGHTNESS)));
        commands.push(LedCommand::WaitForLow);
        assert(commands@ =~= led_idle_commands());
        (LedMonitorState::AwaitingPress, commands)
    }

    /// One step of the sequence, taken when the last wait is over.
    pub fn step(self, switch_high: bool, config: &LedConfig) -> (stepped: (LedMonitorState, Vec<LedCommand>))
        ensures
            (stepped.0, stepped.1@) == self.next(switch_high, *config),
    {
        let mut commands: Vec<LedCommand> = Vec::new();
        let next_state = match self {
            LedMonitorState::AwaitingPress => {
                commands.push(LedCommand::ShowColor(RgbColor::red(STATUS_BRIGHTNESS)));
                commands.push(LedCommand::WaitForHigh);
                LedMonitorState::AwaitingRelease
            },
            LedMonitorState::AwaitingRelease => {
                commands.push(LedCommand::Sleep(DEBOUNCE_MS));
                LedMonitorState::ReleaseDebounce
            },
            LedMonitorState::ReleaseDebounce => {
                if switch_high {
                    commands.push(
                        LedCommand::ShowColor(RgbColor::rgb_with_brightness(0, 255, 0, STATUS_BRIGHTNESS)),
                    );
                    commands.push(LedCommand::SetDutyPercent(config.duty_pct));
                    commands.push(LedCommand::Sleep(config.on_delay_ms));
                    LedMonitorState::Active
                } else {
                    commands.push(LedCommand::ShowColor(RgbColor::blue(STATUS_BRIGHTNESS)));
                    commands.push(LedCommand::WaitForLow);
                    LedMonitorState::AwaitingPress
                }
            },
            LedMonitorState::Active => {
                commands.push(LedCommand::SetDutyPercent(0));
                commands.push(LedCommand::ShowColor(RgbColor::blue(STATUS_BRIGHTNESS)));
                commands.push(LedCommand::ShowColor(RgbColor::blue(STATUS_BRIGHTNESS)));
                commands.push(LedCommand::WaitForLow);
                LedMonitorState::AwaitingPress
            },
        };
        assert(commands@ =~= self.next(switch_high, *config).1);
        (next_state, commands)
    }
}

/// A full cycle of the LED sequence: press (red), release that survives the
/// debounce (green, LED at the configured duty for the configured time, both
/// read at the release), then LED off, blue and waiting for the next press.
pub proof fn lemma_led_full_cycle(config: LedConfig, later: LedConfig, any: bool)
    ensures
        LedMonitorState::AwaitingPress.next(any, later).0 == LedMonitorState::AwaitingRelease,
        LedMonitorState::AwaitingRelease.next(any, later).0 == LedMonitorState::ReleaseDebounce,
        LedMonitorState::ReleaseDebounce.next(true, config) == (
            LedMonitorState::Active,
            seq![
                LedCommand::ShowColor(green_at(STATUS_BRIGHTNESS)),
                LedCommand::SetDutyPercent(config.duty_pct),
                LedCommand::Sleep(config.on_delay_ms),
            ],
        ),
        LedMonitorState::Active.next(any, later) == (
            LedMonitorState::AwaitingPress,
            seq![
                LedCommand::SetDutyPercent(0),
                LedCommand::ShowColor(blue_at(STATUS_BRIGHTNESS)),
                LedCommand::ShowColor(blue_at(STATUS_BRIGHTNESS)),
                LedCommand::WaitForLow,
            ],
        ),
        LedMonitorState::ReleaseDebounce.next(false, config) == (
            LedMonitorState::AwaitingPress,
            led_idle_commands(),
        ),
{
    assert(LedMonitorState::Active.next(any, later).1 =~= seq![
        LedCommand::SetDutyPercent(0),
        LedCommand::ShowColor(blue_at(STATUS_BRIGHTNESS)),
        LedCommand::ShowColor(blue_at(STATUS_BRIGHTNESS)),
        LedCommand::WaitForLow,
    ]);
}

/// The LED is only switched on from the settled release, at the configured
/// duty; every other duty command switches it off.
pub proof fn lemma_led_duty_commands(state: LedMonitorState, switch_high: bool, config: LedConfig, i: int)
    requires
        0 <= i < state.next(switch_high, config).1.len(),
        state.next(switch_high, config).1[i] is SetDutyPercent,
    ensures
        state.next(switch_high, config).1[i] == LedCommand::SetDutyPercent(0) || (state
            == LedMonitorState::ReleaseDebounce && switch_high && state.next(switch_high, config).1[i]
            == LedCommand::SetDutyPercent(config.duty_pct)),
{
    if state == LedMonitorState::Active {
        assert(state.next(switch_high, config).1 =~= seq![
            LedCommand::SetDutyPercent(0),
            LedCommand::ShowColor(blue_at(STATUS_BRIGHTNESS)),
            LedCommand::ShowColor(blue_at(STATUS_BRIGHTNESS)),
            LedCommand::WaitForLow,
        ]);
    }
}

/// The state after the first `k` steps of a run that starts idle, where step
/// `i` reads the switch level `levels[i]` and the live configuration
/// `configs[i]`.
pub open spec fn led_trace_state(levels: Seq<bool>, configs: Seq<LedConfig>, k: nat) -> LedMonitorState
    decreases k,
{
    if k == 0 {
        LedMonitorState::AwaitingPress
    } else {
        led_trace_state(levels, configs, (k - 1) as nat).next(levels[k - 1], configs[k - 1]).0
    }
}

/// The commands of step `k` of that run.
pub open spec fn led_trace_commands(levels: Seq<bool>, configs: Seq<LedConfig>, k: nat) -> Seq<
    LedCommand,
> {
    led_trace_state(levels, configs, k).next(levels[k as int], configs[k as int]).1
}

/// Over any run that starts idle, with any switch levels and configurations:
/// a command that switches the LED on (non-zero duty) is the second command
/// of step `k`, which comes after a press (step `k - 2`: red, wait for
/// release), a release (step `k - 1`: the 20 ms debounce) and a switch that
/// still reads open after it; its duty is the
/// one configured at that moment, the step ends with a wait of the
/// configured on-time, and the next step first switches the LED off.
pub proof fn lemma_led_on_only_after_release(
    levels: Seq<bool>,
    configs: Seq<LedConfig>,
    k: nat,
    i: int,
    duty: u8,
    next_high: bool,
    next_config: LedConfig,
)
    requires
        levels.len() == configs.len(),
        k < levels.len(),
        0 <= i < led_trace_commands(levels, configs, k).len(),
        led_trace_commands(levels, configs, k)[i] == LedCommand::SetDutyPercent(duty),
        duty != 0,
    ensures
        k >= 2,
        i == 1,
        led_trace_state(levels, configs, (k - 2) as nat) == LedMonitorState::AwaitingPress,
        led_trace_commands(levels, configs, (k - 2) as nat) == seq![
            LedCommand::ShowColor(red_at(STATUS_BRIGHTNESS)),
            LedCommand::WaitForHigh,
        ],
        led_trace_state(levels, configs, (k - 1) as nat) == LedMonitorState::AwaitingRelease,
        led_trace_commands(levels, configs, (k - 1) as nat) == seq![LedCommand::Sleep(DEBOUNCE_MS)],
        levels[k as int],
        duty == configs[k as int].duty_pct,
        led_trace_commands(levels, configs, k) == seq![
            LedCommand::ShowColor(green_at(STATUS_BRIGHTNESS)),
            LedCommand::SetDutyPercent(duty),
            LedCommand::Sleep(configs[k as int].on_delay_ms),
        ],
        led_trace_state(levels, configs, k + 1) == LedMonitorState::Active,
        LedMonitorState::Active.next(next_high, next_config).1[0] == LedCommand::SetDutyPercent(0),
{
    let s = led_trace_state(levels, configs, k);
    lemma_led_duty_commands(s, levels[k as int], configs[k as int], i);
    assert(s == LedMonitorState::ReleaseDebounce);
    assert(k >= 1);
    let s1 = led_trace_state(levels, configs, (k - 1) as nat);
    assert(s1 == LedMonitorState::AwaitingRelease);
    assert(k >= 2);
    let s2 = led_trace_state(levels, configs, (k - 2) as nat);
    assert(s2 == LedMonitorState::AwaitingPress);
    assert(led_trace_state(levels, configs, k + 1) == s.next(levels[k as int], configs[k as int]).0);
    assert(LedMonitorState::Active.next(next_high, next_config).1 =~= seq![
        LedCommand::SetDutyPercent(0),
        LedCommand::ShowColor(blue_at(STATUS_BRIGHTNESS)),
        LedCommand::ShowColor(blue_at(STATUS_BRIGHTNESS)),
        LedCommand::WaitForLow,
    ]);
}

} // verus!
