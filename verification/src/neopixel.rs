//! WS2812 ("NeoPixel") wire encoding of a colour: the 24-bit GRB stream and
//! the RMT pulse frame that carries it.
use vstd::prelude::*;

use crate::RgbColor;

verus! {

/// Number of data bits sent to one pixel.
pub const NEOPIXEL_DATA_BITS: usize = 24;

/// Number of pulse codes in one frame: one per data bit and an end marker.
pub const NEOPIXEL_FRAME_LEN: usize = NEOPIXEL_DATA_BITS + 1;

/// High time of a zero bit, in RMT ticks.
pub const WS2812_T0H_TICKS: u16 = 32;

/// Low time of a zero bit, in RMT ticks.
pub const WS2812_T0L_TICKS: u16 = 68;

/// High time of a one bit, in RMT ticks.
pub const WS2812_T1H_TICKS: u16 = 64;

/// Low time of a one bit, in RMT ticks.
pub const WS2812_T1L_TICKS: u16 = 36;

/// The channel bytes in wire order: green, red, blue.
pub open spec fn grb_bytes(color: RgbColor) -> Seq<u8> {
    seq![color.g, color.r, color.b]
}

/// Bit `k` (0 = least significant) of `byte`.
pub open spec fn byte_bit(byte: u8, k: u8) -> bool {
    (byte >> k) & 1u8 == 1u8
}

/// Bit `i` of the stream sent for `color`: the bytes go in GRB order, each
/// most significant bit first.
pub open spec fn stream_bit(color: RgbColor, i: int) -> bool {
    byte_bit(grb_bytes(color)[i / 8], (7 - i % 8) as u8)
}

/// The whole 24-bit stream sent for `color`.
pub open spec fn color_stream(color: RgbColor) -> Seq<bool> {
    Seq::new(NEOPIXEL_DATA_BITS as nat, |i: int| stream_bit(color, i))
}

/// The byte whose bits, most significant first, are `bits[start..start + 8]`.
pub open spec fn byte_from_bits(bits: Seq<bool>, start: int) -> u8 {
    (if bits[start] { 0x80u8 } else { 0u8 }) | (if bits[start + 1] { 0x40u8 } else { 0u8 }) | (if bits[
        start + 2] { 0x20u8 } else { 0u8 }) | (if bits[start + 3] { 0x10u8 } else { 0u8 }) | (if bits[
        start + 4] { 0x08u8 } else { 0u8 }) | (if bits[start + 5] { 0x04u8 } else { 0u8 }) | (if bits[
        start + 6] { 0x02u8 } else { 0u8 }) | (if bits[start + 7] { 0x01u8 } else { 0u8 })
}

/// The colour that a receiving pixel reads out of a 24-bit GRB stream.
pub open spec fn color_from_stream(bits: Seq<bool>) -> RgbColor {
    RgbColor { r: byte_from_bits(bits, 8), g: byte_from_bits(bits, 0), b: byte_from_bits(bits, 16) }
}

/// One RMT pulse code: a first interval at `level1` for `length1` ticks, then
/// a second at `level2` for `length2` ticks (`true` is a high level).
#[derive(Clone, Copy, Debug, PartialEq, Eq, Structural)]
pub struct Pulse {
    pub level1: bool,
    pub length1: u16,
    pub level2: bool,
    pub length2: u16,
}

/// The pulse that ends a transmission: both intervals low and of length zero.
pub open spec fn end_marker() -> Pulse {
    Pulse { level1: false, length1: 0, level2: false, length2: 0 }
}

/// The WS2812 pulse for one data bit: high then low, with the timing of a one
/// or a zero bit.
pub open spec fn bit_pulse(bit: bool) -> Pulse {
    if bit {
        Pulse { level1: true, length1: WS2812_T1H_TICKS, level2: false, length2: WS2812_T1L_TICKS }
    } else {
        Pulse { level1: true, length1: WS2812_T0H_TICKS, level2: false, length2: WS2812_T0L_TICKS }
    }
}

/// The 24 data bits for `color`, in transmission order (GRB, most
/// significant bit first).
pub fn neopixel_bits(color: RgbColor) -> (bits: [bool; NEOPIXEL_DATA_BITS])
    ensures
        bits@ == color_stream(color),
{
    let mut bits = [false; NEOPIXEL_DATA_BITS];
    let grb: [u8; 3] = [color.g, color.r, color.b];
    let mut bit_index: usize = 0;
    let mut c: usize = 0;
    while c < 3
        invariant
            c <= 3,
            bit_index == 8 * c,
            grb@ == grb_bytes(color),
            bits@.len() == NEOPIXEL_DATA_BITS,
            forall|i: int| 0 <= i < bit_index ==> #[trigger] bits@[i] == stream_bit(color, i),
        decreases 3 - c,
    {
        let channel = grb[c];
        let mut j: u8 = 0;
        while j < 8
            invariant
                c < 3,
                j <= 8,
                channel == grb_bytes(color)[c as int],
                bit_index == 8 * c + j,
                bits@.len() == NEOPIXEL_DATA_BITS,
                forall|i: int| 0 <= i < bit_index ==> #[trigger] bits@[i] == stream_bit(color, i),
            decreases 8 - j,
        {
            let shift: u8 = 7 - j;
            bits[bit_index] = (channel >> shift) & 1 == 1;
            proof {
                let i = bit_index as int;
                assert(i / 8 == c as int && i % 8 == j as int);
                assert(bits@[i] == stream_bit(color, i));
            }
            bit_index += 1;
            j += 1;
        }
        c += 1;
    }
    assert(bits@ =~= color_stream(color));
    bits
}

/// The pulse frame that transmits `color`: one pulse per data bit, in stream
/// order, followed by the end marker.
pub fn neopixel_frame(color: RgbColor) -> (frame: [Pulse; NEOPIXEL_FRAME_LEN])
    ensures
        frame@.len() == NEOPIXEL_FRAME_LEN,
        forall|i: int| 0 <= i < NEOPIXEL_DATA_BITS ==> #[trigger] frame@[i] == bit_pulse(stream_bit(color, i)),
        frame@[NEOPIXEL_DATA_BITS as int] == end_marker(),
{
    let end = Pulse { level1: false, length1: 0, level2: false, length2: 0 };
    let mut frame = [end; NEOPIXEL_FRAME_LEN];
    let bits = neopixel_bits(color);
    let mut idx: usize = 0;
    while idx < NEOPIXEL_DATA_BITS
        invariant
            idx <= NEOPIXEL_DATA_BITS,
            bits@ == color_stream(color),
            frame@.len() == NEOPIXEL_FRAME_LEN,
            forall|i: int| 0 <= i < idx ==> #[trigger] frame@[i] == bit_pulse(stream_bit(color, i)),
            forall|i: int| idx <= i < NEOPIXEL_FRAME_LEN ==> #[trigger] frame@[i] == end_marker(),
        decreases NEOPIXEL_DATA_BITS - idx,
    {
        let pulse = if bits[idx] {
            Pulse { level1: true, length1: WS2812_T1H_TICKS, level2: false, length2: WS2812_T1L_TICKS }
        } else {
            Pulse { level1: true, length1: WS2812_T0H_TICKS, level2: false, length2: WS2812_T0L_TICKS }
        };
        frame[idx] = pulse;
        idx += 1;
    }
    frame
}

proof fn lemma_byte_from_own_bits(byte: u8)
    ensures
        byte == (if byte_bit(byte, 7) { 0x80u8 } else { 0u8 }) | (if byte_bit(byte, 6) { 0x40u8 } else { 0u8 })
            | (if byte_bit(byte, 5) { 0x20u8 } else { 0u8 }) | (if byte_bit(byte, 4) { 0x10u8 } else { 0u8 })
            | (if byte_bit(byte, 3) { 0x08u8 } else { 0u8 }) | (if byte_bit(byte, 2) { 0x04u8 } else { 0u8 })
            | (if byte_bit(byte, 1) { 0x02u8 } else { 0u8 }) | (if byte_bit(byte, 0) { 0x01u8 } else { 0u8 }),
{
    assert(byte == (if (byte >> 7u8) & 1u8 == 1u8 { 0x80u8 } else { 0u8 }) | (if (byte >> 6u8) & 1u8 == 1u8 { 0x40u8 } else { 0u8 })
            | (if (byte >> 5u8) & 1u8 == 1u8 { 0x20u8 } else { 0u8 }) | (if (byte >> 4u8) & 1u8 == 1u8 { 0x10u8 } else { 0u8 })
            | (if (byte >> 3u8) & 1u8 == 1u8 { 0x08u8 } else { 0u8 }) | (if (byte >> 2u8) & 1u8 == 1u8 { 0x04u8 } else { 0u8 })
            | (if (byte >> 1u8) & 1u8 == 1u8 { 0x02u8 } else { 0u8 }) | (if (byte >> 0u8) & 1u8 == 1u8 { 0x01u8 } else { 0u8 }))
        by (bit_vector);
}

proof fn lemma_stream_byte(color: RgbColor, c: int)
    requires
        0 <= c < 3,
    ensures
        byte_from_bits(color_stream(color), 8 * c) == grb_bytes(color)[c],
{
    let s = color_stream(color);
    let byte = grb_bytes(color)[c];
    assert forall|j: int| 0 <= j < 8 implies #[trigger] s[8 * c + j] == byte_bit(byte, (7 - j) as u8) by {
        assert((8 * c + j) / 8 == c && (8 * c + j) % 8 == j);
    }
    assert(s[8 * c] == byte_bit(byte, 7));
    assert(s[8 * c + 1] == byte_bit(byte, 6));
    assert(s[8 * c + 2] == byte_bit(byte, 5));
    assert(s[8 * c + 3] == byte_bit(byte, 4));
    assert(s[8 * c + 4] == byte_bit(byte, 3));
    assert(s[8 * c + 5] == byte_bit(byte, 2));
    assert(s[8 * c + 6] == byte_bit(byte, 1));
    assert(s[8 * c + 7] == byte_bit(byte, 0));
    lemma_byte_from_own_bits(byte);
}

/// A pixel that reads the stream back gets exactly the colour that was sent:
/// the 24-bit stream encodes every channel without loss.
pub proof fn lemma_stream_encodes_color(color: RgbColor)
    ensures
        color_from_stream(color_stream(color)) == color,
{
    lemma_stream_byte(color, 0);
    lemma_stream_byte(color, 1);
    lemma_stream_byte(color, 2);
}

/// Every data pulse starts high, ends low and lasts 100 ticks in total
/// (1.25 us at the 80 MHz RMT clock), whether it carries a one or a zero.
pub proof fn lemma_bit_pulse_timing(bit: bool)
    ensures
        bit_pulse(bit).level1,
        !bit_pulse(bit).level2,
        bit_pulse(bit).length1 + bit_pulse(bit).length2 == 100,
        bit ==> bit_pulse(bit).length1 > bit_pulse(bit).length2,
        !bit ==> bit_pulse(bit).length1 < bit_pulse(bit).length2,
{
}

} // verus!
