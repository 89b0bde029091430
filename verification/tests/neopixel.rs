use rustwood::neopixel::{
    neopixel_bits, neopixel_frame, Pulse, NEOPIXEL_DATA_BITS, NEOPIXEL_FRAME_LEN, WS2812_T0H_TICKS,
    WS2812_T0L_TICKS, WS2812_T1H_TICKS, WS2812_T1L_TICKS,
};
use rustwood::RgbColor;

#[test]
fn bitstream_has_24_entries() {
    let bits = neopixel_bits(RgbColor::new(0, 0, 0));
    assert_eq!(bits.len(), NEOPIXEL_DATA_BITS);
}

#[test]
fn grb_order_is_used_for_color_bits() {
    let bits = neopixel_bits(RgbColor::new(0x00, 0xFF, 0x00));
    assert!(bits[..8].iter().all(|bit| *bit));
    assert!(bits[8..24].iter().all(|bit| !*bit));
}

#[test]
fn red_channel_maps_to_middle_byte_in_grb_stream() {
    let bits = neopixel_bits(RgbColor::new(0x80, 0x00, 0x00));
    assert!(bits[8]);
    assert!(bits[9..16].iter().all(|bit| !*bit));
}

fn byte_of(bits: &[bool]) -> u8 {
    bits.iter().fold(0u8, |acc, bit| (acc << 1) | (*bit as u8))
}

#[test]
fn bits_are_most_significant_first_and_decode_back() {
    let color = RgbColor::new(0x12, 0xA5, 0x01);
    let bits = neopixel_bits(color);
    assert_eq!(byte_of(&bits[0..8]), 0xA5);
    assert_eq!(byte_of(&bits[8..16]), 0x12);
    assert_eq!(byte_of(&bits[16..24]), 0x01);
    assert!(bits[23]);
    assert!(!bits[22]);
    assert!(bits[0] && !bits[1] && bits[2]);
}

#[test]
fn frame_carries_bits_and_ends_with_marker() {
    let color = RgbColor::new(0x0F, 0xF0, 0x81);
    let bits = neopixel_bits(color);
    let frame = neopixel_frame(color);
    assert_eq!(frame.len(), NEOPIXEL_FRAME_LEN);
    for (i, bit) in bits.iter().enumerate() {
        let expected = if *bit {
            Pulse { level1: true, length1: WS2812_T1H_TICKS, level2: false, length2: WS2812_T1L_TICKS }
        } else {
            Pulse { level1: true, length1: WS2812_T0H_TICKS, level2: false, length2: WS2812_T0L_TICKS }
        };
        assert_eq!(frame[i], expected);
        assert_eq!(frame[i].length1 + frame[i].length2, 100);
    }
    assert_eq!(
        frame[NEOPIXEL_DATA_BITS],
        Pulse { level1: false, length1: 0, level2: false, length2: 0 }
    );
    assert_eq!(frame[0], Pulse { level1: true, length1: 64, level2: false, length2: 36 });
    assert_eq!(frame[4], Pulse { level1: true, length1: 32, level2: false, length2: 68 });
}
