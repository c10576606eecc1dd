use monkey_shared::bits::{
    decode_alignment, decode_win_time, encode_alignment, encode_elapsed_secs, encode_win_time,
    is_cosine, ALIGNMENT_NONE_BITS, COSINE_MAX_BITS, COSINE_MIN_BITS, ELAPSED_NONE_BITS,
    NEGATIVE_ZERO_BITS, WIN_TIME_NONE_BITS,
};
use monkey_shared::game_structure::{GameConfig, SharedGameStructure};

#[test]
fn reserved_patterns_are_those_of_two_and_zero() {
    assert_eq!(ALIGNMENT_NONE_BITS, 2.0f32.to_bits());
    assert_eq!(WIN_TIME_NONE_BITS, 0.0f32.to_bits());
    assert_eq!(COSINE_MAX_BITS, 1.0f32.to_bits());
    assert_eq!(COSINE_MIN_BITS, (-1.0f32).to_bits());
    assert_eq!(NEGATIVE_ZERO_BITS, (-0.0f32).to_bits());
}

#[test]
fn float_patterns_travel_bit_for_bit() {
    let values = [
        0.0f32,
        -0.0,
        1.0,
        -1.0,
        2.5,
        f32::NAN,
        f32::INFINITY,
        f32::NEG_INFINITY,
        f32::MIN_POSITIVE,
        f32::MAX,
        f32::MIN,
        1.0e-40,
    ];
    for v in values {
        let mut gs = SharedGameStructure::new();
        let mut config = GameConfig::default_trial();
        config.base_radius = v.to_bits();
        config.colors[7] = v.to_bits();
        gs.write_config(&config);
        let back = gs.read_config();
        assert_eq!(back.base_radius, v.to_bits());
        assert_eq!(back.colors[7], v.to_bits());
        assert_eq!(f32::from_bits(back.base_radius).to_bits(), v.to_bits());
    }
}

#[test]
fn quiet_nan_payload_survives() {
    let odd_nan: u32 = 0x7FC1_2345;
    let mut gs = SharedGameStructure::new();
    let mut config = GameConfig::default_trial();
    config.height = odd_nan;
    gs.write_config(&config);
    assert_eq!(gs.read_config().height, odd_nan);
    assert!(f32::from_bits(gs.read_config().height).is_nan());
}

#[test]
fn cosines_are_recognised_by_pattern() {
    let mut k: i32 = -1000;
    while k <= 1000 {
        let v = (k as f32) / 1000.0;
        assert!(is_cosine(v.to_bits()), "{} should be a cosine", v);
        assert_ne!(v.to_bits(), ALIGNMENT_NONE_BITS);
        k += 1;
    }
    assert!(is_cosine(0.0f32.to_bits()));
    assert!(is_cosine((-0.0f32).to_bits()));
    assert!(is_cosine(1.0f32.to_bits()));
    assert!(is_cosine((-1.0f32).to_bits()));
    assert!(is_cosine(f32::MIN_POSITIVE.to_bits()));
}

#[test]
fn values_outside_the_unit_interval_are_no_cosines() {
    let outside = [
        2.0f32,
        1.000_000_1,
        -1.000_000_1,
        1.5,
        -2.0,
        f32::INFINITY,
        f32::NEG_INFINITY,
        f32::NAN,
        f32::MAX,
    ];
    for v in outside {
        assert!(!is_cosine(v.to_bits()), "{} should not be a cosine", v);
    }
    assert!(!is_cosine(COSINE_MAX_BITS + 1));
    assert!(!is_cosine(COSINE_MIN_BITS + 1));
    assert!(!is_cosine(NEGATIVE_ZERO_BITS - 1));
}

#[test]
fn pattern_order_follows_value_order_within_a_sign() {
    let mut prev = 0.0f32;
    let mut k = 1;
    while k <= 1000 {
        let v = (k as f32) / 1000.0;
        assert!(v.to_bits() > prev.to_bits());
        assert!((-v).to_bits() > (-prev).to_bits());
        prev = v;
        k += 1;
    }
}

#[test]
fn alignment_is_absent_for_the_reserved_pattern_only() {
    assert_eq!(decode_alignment(ALIGNMENT_NONE_BITS), None);
    assert_eq!(decode_alignment(2.0f32.to_bits()), None);
    assert_eq!(decode_alignment(ALIGNMENT_NONE_BITS + 1), Some(ALIGNMENT_NONE_BITS + 1));
    assert_eq!(decode_alignment(ALIGNMENT_NONE_BITS - 1), Some(ALIGNMENT_NONE_BITS - 1));
    assert_eq!(decode_alignment(0), Some(0));
    assert_eq!(decode_alignment(1.0f32.to_bits()), Some(0x3F80_0000));
    assert_eq!(decode_alignment(1.6f32.to_bits()), Some(1.6f32.to_bits()));
    assert_eq!(decode_alignment(f32::NAN.to_bits()), Some(f32::NAN.to_bits()));
}

#[test]
fn alignment_encoding_is_exact() {
    assert_eq!(encode_alignment(None), 0x4000_0000);
    assert_eq!(encode_alignment(Some(0.5f32.to_bits())), 0x3F00_0000);
    assert_eq!(encode_alignment(Some((-1.0f32).to_bits())), 0xBF80_0000);
    assert_eq!(decode_alignment(encode_alignment(Some(0.25f32.to_bits()))), Some(0x3E80_0000));
    assert_eq!(decode_alignment(encode_alignment(None)), None);
}

#[test]
fn win_time_is_absent_for_zero_only() {
    assert_eq!(decode_win_time(0), None);
    assert_eq!(decode_win_time(0.0f32.to_bits()), None);
    assert_eq!(decode_win_time((-0.0f32).to_bits()), None);
    assert_eq!(decode_win_time(0x8000_0000), None);
    assert_eq!(decode_win_time(1), Some(1));
    assert_eq!(decode_win_time(0x8000_0001), Some(0x8000_0001));
    assert_eq!(decode_win_time(0x7FFF_FFFF), Some(0x7FFF_FFFF));
    assert_eq!(decode_win_time(12.5f32.to_bits()), Some(0x4148_0000));
    assert_eq!(encode_win_time(None), 0);
    assert_eq!(encode_win_time(Some(3.0f32.to_bits())), 0x4040_0000);
}

#[test]
fn win_time_is_absent_exactly_where_the_value_is_zero() {
    let patterns = [
        0u32,
        1,
        0x8000_0000,
        0x8000_0001,
        0x0000_0100,
        0x3A83_126F,
        0x3F80_0000,
        0x7F80_0000,
        0x7FC0_0000,
        0xFF80_0000,
        0xBF80_0000,
        u32::MAX,
    ];
    for w in patterns {
        let is_zero = f32::from_bits(w) == 0.0;
        assert_eq!(decode_win_time(w).is_none(), is_zero, "pattern {:#x}", w);
        if !is_zero {
            assert_eq!(decode_win_time(w), Some(w));
        }
    }
}

#[test]
fn short_win_times_are_present() {
    for v in [0.001f32, 0.0005, 1.0e-6, f32::MIN_POSITIVE, 1.0e-40] {
        assert_eq!(decode_win_time(v.to_bits()), Some(v.to_bits()), "{}", v);
        assert_eq!(decode_win_time(encode_win_time(Some(v.to_bits()))), Some(v.to_bits()));
    }
}

#[test]
fn elapsed_time_that_has_not_started_is_written_as_zero() {
    assert_eq!(ELAPSED_NONE_BITS, 0.0f32.to_bits());
    assert_eq!(encode_elapsed_secs(None), 0);
    assert_eq!(encode_elapsed_secs(Some(1.5f32.to_bits())), 0x3FC0_0000);
    assert_eq!(encode_elapsed_secs(Some(0)), 0);
}
