use blink_strip::blink::PinLevel;
use blink_strip::led::Led;
use blink_strip::led_strip::{
    decode_frame, LedStrip, Pulse, StripError, LATCH_NS, MIN_LATCH_NS, T0H_NS, T0L_NS, T1H_NS,
    T1L_NS,
};

fn ones_bit(p_hi: &Pulse, p_lo: &Pulse) -> bool {
    assert_eq!(p_hi.level, PinLevel::High);
    assert_eq!(p_lo.level, PinLevel::Low);
    p_hi.duration_ns > p_lo.duration_ns
}

#[test]
fn set_led_round_trip_decodes_exact_color() {
    let mut strip = LedStrip::new(5);
    let color = Led::new(0x12, 0x34, 0x56);
    let pulses = strip.set_led(2, color).unwrap();
    assert_eq!(pulses.len(), 5 * 24 * 2);
    let colors = decode_frame(&pulses, 5);
    assert_eq!(colors.len(), 5);
    for (j, c) in colors.iter().enumerate() {
        if j == 2 {
            assert_eq!(*c, color);
        } else {
            assert_eq!(*c, Led::new(0, 0, 0));
        }
    }
}

#[test]
fn set_led_channel_order_is_red_green_blue() {
    let mut strip = LedStrip::new(1);
    let pulses = strip.set_led(0, Led::new(1, 2, 3)).unwrap();
    assert_eq!(pulses.len(), 48);
    let mut bytes = [0u8; 3];
    for c in 0..3 {
        let mut byte = 0u8;
        for i in 0..8 {
            let k = 16 * c + 2 * i;
            byte = byte << 1 | ones_bit(&pulses[k], &pulses[k + 1]) as u8;
        }
        bytes[c] = byte;
    }
    assert_eq!(bytes, [1, 2, 3]);
}

#[test]
fn set_led_bit_pattern_msb_first_exact_durations() {
    let mut strip = LedStrip::new(1);
    // red = 0b1011_0010, green and blue dark
    let pulses = strip.set_led(0, Led::new(178, 0, 0)).unwrap();
    let red_bits = [true, false, true, true, false, false, true, false];
    for (i, bit) in red_bits.iter().enumerate() {
        let hi = &pulses[2 * i];
        let lo = &pulses[2 * i + 1];
        assert_eq!(hi.level, PinLevel::High);
        assert_eq!(lo.level, PinLevel::Low);
        if *bit {
            assert_eq!(hi.duration_ns, T1H_NS);
            assert_eq!(lo.duration_ns, T1L_NS);
        } else {
            assert_eq!(hi.duration_ns, T0H_NS);
            assert_eq!(lo.duration_ns, T0L_NS);
        }
    }
    // the remaining two channels are all zero bits
    for k in 16..48 {
        let p = &pulses[k];
        if k % 2 == 0 {
            assert_eq!(p.level, PinLevel::High);
            assert_eq!(p.duration_ns, T0H_NS);
        } else {
            assert_eq!(p.level, PinLevel::Low);
            assert_eq!(p.duration_ns, T0L_NS);
        }
    }
}

#[test]
fn set_led_out_of_range_is_refused_without_transmission() {
    let mut strip = LedStrip::new(3);
    assert_eq!(
        strip.set_led(3, Led::new(9, 9, 9)).unwrap_err(),
        StripError::IndexOutOfRange
    );
    assert_eq!(
        strip.set_led(100, Led::new(9, 9, 9)).unwrap_err(),
        StripError::IndexOutOfRange
    );
    // the driver is untouched: a valid frame may still start at once
    let pulses = strip.set_led(0, Led::new(9, 9, 9)).unwrap();
    assert_eq!(pulses.len(), 144);
}

#[test]
fn set_led_on_empty_strip_refuses_every_index() {
    let mut strip = LedStrip::new(0);
    assert_eq!(
        strip.set_led(0, Led::new(1, 1, 1)).unwrap_err(),
        StripError::IndexOutOfRange
    );
}

#[test]
fn low_twice_is_idempotent_and_error_free() {
    let mut strip = LedStrip::new(3);
    let _ = strip.set_led(1, Led::new(255, 0, 0)).unwrap();
    let first = strip.low();
    let second = strip.low();
    assert_eq!(first, second);
    assert_eq!(first.level, PinLevel::Low);
    assert_eq!(first.duration_ns, LATCH_NS);
    assert!(second.duration_ns >= MIN_LATCH_NS);
}

#[test]
fn three_pixel_scenario_full_red_at_index_one() {
    let mut strip = LedStrip::new(3);
    let pulses = strip.set_led(1, Led::new(255, 0, 0)).unwrap();
    assert_eq!(pulses.len(), 3 * 24 * 2);
    let colors = decode_frame(&pulses, 3);
    assert_eq!(colors[0], Led::new(0, 0, 0));
    assert_eq!(colors[1], Led::new(255, 0, 0));
    assert_eq!(colors[2], Led::new(0, 0, 0));
    // pixel 1's red channel is eight long-high/short-low bit periods
    for i in 0..8 {
        assert_eq!(pulses[48 + 2 * i].duration_ns, T1H_NS);
        assert_eq!(pulses[48 + 2 * i + 1].duration_ns, T1L_NS);
    }
    let latch = strip.low();
    assert_eq!(latch.level, PinLevel::Low);
    assert!(latch.duration_ns >= MIN_LATCH_NS);
}

#[test]
fn every_bit_period_has_fixed_total_duration() {
    let mut strip = LedStrip::new(2);
    let pulses = strip.set_led(0, Led::new(0xA5, 0x5A, 0xFF)).unwrap();
    for i in 0..pulses.len() / 2 {
        let total = pulses[2 * i].duration_ns + pulses[2 * i + 1].duration_ns;
        assert_eq!(total, blink_strip::led_strip::BIT_PERIOD_NS);
    }
}
