//! Colour, configuration, servo, storage and control logic for the rustwood
//! motor controller firmware.
use vstd::prelude::*;

pub mod monitor;
pub mod neopixel;
pub mod pwm_led;
pub mod servo;
pub mod storage;
pub mod web;

verus! {

/// The value of one colour channel after scaling by `brightness`, where
/// `255` means full scale: `channel * brightness / 255`, rounded down.
pub open spec fn scaled_channel(channel: u8, brightness: u8) -> u8 {
    ((channel as nat * brightness as nat) / 255) as u8
}

/// Full-scale blue (0, 0, 255) scaled by `brightness`.
pub open spec fn blue_at(brightness: u8) -> RgbColor {
    (RgbColor { r: 0, g: 0, b: 255 }).scaled(brightness)
}

/// Full-scale green (0, 255, 0) scaled by `brightness`.
pub open spec fn green_at(brightness: u8) -> RgbColor {
    (RgbColor { r: 0, g: 255, b: 0 }).scaled(brightness)
}

/// Full-scale red (255, 0, 0) scaled by `brightness`.
pub open spec fn red_at(brightness: u8) -> RgbColor {
    (RgbColor { r: 255, g: 0, b: 0 }).scaled(brightness)
}

/// Full-scale yellow (255, 255, 0) scaled by `brightness`.
pub open spec fn yellow_at(brightness: u8) -> RgbColor {
    (RgbColor { r: 255, g: 255, b: 0 }).scaled(brightness)
}

/// Full-scale orange (255, 165, 0) scaled by `brightness`.
pub open spec fn orange_at(brightness: u8) -> RgbColor {
    (RgbColor { r: 255, g: 165, b: 0 }).scaled(brightness)
}

/// RGB colour value used by the NeoPixel control path.
#[derive(Clone, Copy, Debug, PartialEq, Eq, Structural)]
pub struct RgbColor {
    pub r: u8,
    pub g: u8,
    pub b: u8,
}

impl RgbColor {
    /// This colour with every channel scaled by `brightness`.
    pub open spec fn scaled(self, brightness: u8) -> RgbColor {
        RgbColor {
            r: scaled_channel(self.r, brightness),
            g: scaled_channel(self.g, brightness),
            b: scaled_channel(self.b, brightness),
        }
    }

    /// Construct an RGB colour and apply a brightness scale in one step.
    pub fn rgb_with_brightness(r: u8, g: u8, b: u8, brightness: u8) -> (color: Self)
        ensures
            color == (RgbColor { r, g, b }).scaled(brightness),
    {
        Self::new(r, g, b).with_brightness(brightness)
    }

    /// Construct a full-scale RGB colour.
    pub fn new(r: u8, g: u8, b: u8) -> (color: Self)
        ensures
            color == (RgbColor { r, g, b }),
    {
        Self { r, g, b }
    }

    /// Scale all channels by brightness in the range 0..=255.
    pub fn with_brightness(self, brightness: u8) -> (color: Self)
        ensures
            color == self.scaled(brightness),
    {
        Self {
            r: scale_channel(self.r, brightness),
            g: scale_channel(self.g, brightness),
            b: scale_channel(self.b, brightness),
        }
    }

    /// Shortcut for blue with a brightness scale.
    pub fn blue(brightness: u8) -> (color: Self)
        ensures
            color == blue_at(brightness),
    {
        Self::rgb_with_brightness(0, 0, 255, brightness)
    }

    /// Shortcut for green with a brightness scale.
    pub fn green(brightness: u8) -> (color: Self)
        ensures
            color == green_at(brightness),
    {
        Self::rgb_with_brightness(0, 255, 0, brightness)
    }

    /// Shortcut for red with a brightness scale.
    pub fn red(brightness: u8) -> (color: Self)
        ensures
            color == red_at(brightness),
    {
        Self::rgb_with_brightness(255, 0, 0, brightness)
    }

    /// Shortcut for yellow with a brightness scale.
    pub fn yellow(brightness: u8) -> (color: Self)
        ensures
            color == yellow_at(brightness),
    {
        Self::rgb_with_brightness(255, 255, 0, brightness)
    }

    /// Shortcut for orange with brightness scale.
    pub fn orange(brightness: u8) -> (color: Self)
        ensures
            color == orange_at(brightness),
    {
        Self::rgb_with_brightness(255, 165, 0, brightness)
    }
}

/// Scale one channel by `brightness / 255`, rounding down.
fn scale_channel(channel: u8, brightness: u8) -> (scaled: u8)
    ensures
        scaled == scaled_channel(channel, brightness),
{
    proof {
        assert(channel as nat * brightness as nat <= 255 * 255) by (nonlinear_arith)
            requires
                channel <= 255,
                brightness <= 255,
        ;
    }
    let product: u16 = channel as u16 * brightness as u16;
    (product / 255) as u8
}

/// The channel value scaled by `brightness`, as an integer quotient.
proof fn lemma_scaled_channel(channel: u8, brightness: u8)
    ensures
        scaled_channel(channel, brightness) as int == (channel as int * brightness as int) / 255,
        scaled_channel(channel, brightness) <= channel,
        brightness == 0 ==> scaled_channel(channel, brightness) == 0,
        brightness == 255 ==> scaled_channel(channel, brightness) == channel,
{
    let p: int = channel as int * brightness as int;
    assert(0 <= p <= channel as int * 255) by (nonlinear_arith)
        requires
            p == channel as int * brightness as int,
            channel <= 255,
            brightness <= 255,
    ;
    assert(p / 255 <= channel as int) by (nonlinear_arith)
        requires
            0 <= p <= channel as int * 255,
    ;
    assert(brightness == 255 ==> p / 255 == channel as int) by (nonlinear_arith)
        requires
            p == channel as int * brightness as int,
    ;
}

/// Scaling by brightness zero turns every channel off.
pub proof fn lemma_zero_brightness_turns_off(color: RgbColor)
    ensures
        color.scaled(0) == (RgbColor { r: 0, g: 0, b: 0 }),
{
    lemma_scaled_channel(color.r, 0);
    lemma_scaled_channel(color.g, 0);
    lemma_scaled_channel(color.b, 0);
}

/// Scaling by full brightness (255) leaves every channel as it was.
pub proof fn lemma_full_brightness_keeps_color(color: RgbColor)
    ensures
        color.scaled(255) == color,
{
    lemma_scaled_channel(color.r, 255);
    lemma_scaled_channel(color.g, 255);
    lemma_scaled_channel(color.b, 255);
}

/// Scaling never makes a channel brighter than it was.
pub proof fn lemma_brightness_never_brightens(color: RgbColor, brightness: u8)
    ensures
        color.scaled(brightness).r <= color.r,
        color.scaled(brightness).g <= color.g,
        color.scaled(brightness).b <= color.b,
{
    lemma_scaled_channel(color.r, brightness);
    lemma_scaled_channel(color.g, brightness);
    lemma_scaled_channel(color.b, brightness);
}

proof fn lemma_scaled_channel_monotone(channel: u8, low: u8, high: u8)
    requires
        low <= high,
    ensures
        scaled_channel(channel, low) <= scaled_channel(channel, high),
{
    lemma_scaled_channel(channel, low);
    lemma_scaled_channel(channel, high);
    assert((channel as int * low as int) / 255 <= (channel as int * high as int) / 255)
        by (nonlinear_arith)
        requires
            low <= high,
            0 <= channel,
    ;
}

/// A higher brightness never gives a dimmer channel: scaling is monotone in
/// the brightness, channel by channel.
pub proof fn lemma_brightness_monotone(color: RgbColor, low: u8, high: u8)
    requires
        low <= high,
    ensures
        color.scaled(low).r <= color.scaled(high).r,
        color.scaled(low).g <= color.scaled(high).g,
        color.scaled(low).b <= color.scaled(high).b,
{
    lemma_scaled_channel_monotone(color.r, low, high);
    lemma_scaled_channel_monotone(color.g, low, high);
    lemma_scaled_channel_monotone(color.b, low, high);
}

/// Shared motor configuration, updated via the web UI and persisted to flash.
#[derive(Clone, Copy, Debug, PartialEq, Eq, Structural)]
pub struct LedConfig {
    pub motor_spare_throttle_percent: u16,
    pub motor_left_wheel_throttle_percent: u16,
    pub motor_right_wheel_throttle_percent: u16,
    pub motor_fan_throttle_percent: u16,
    pub motor_fan_idle_throttle_percent: u16,
    pub arm_wait_ms: u64,
    pub on_duration_ms: u64,
    pub on_delay_ms: u64,
}

impl LedConfig {
    /// The factory configuration: spare motor off, wheels and fan at 20 %,
    /// no idle fan, a 500 ms arm delay, no activation delay and a 1500 ms run.
    pub open spec fn factory() -> LedConfig {
        LedConfig {
            motor_spare_throttle_percent: 0,
            motor_left_wheel_throttle_percent: 20,
            motor_right_wheel_throttle_percent: 20,
            motor_fan_throttle_percent: 20,
            motor_fan_idle_throttle_percent: 0,
            arm_wait_ms: 500,
            on_duration_ms: 1500,
            on_delay_ms: 0,
        }
    }
}

impl Default for LedConfig {
    fn default() -> (config: Self)
        ensures
            config == LedConfig::factory(),
    {
        Self {
            motor_spare_throttle_percent: 0,
            motor_left_wheel_throttle_percent: 20,
            motor_right_wheel_throttle_percent: 20,
            motor_fan_throttle_percent: 20,
            motor_fan_idle_throttle_percent: 0,
            arm_wait_ms: 500,
            on_duration_ms: 1500,
            on_delay_ms: 0,
        }
    }
}

} // verus!
