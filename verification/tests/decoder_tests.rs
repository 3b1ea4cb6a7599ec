use adx_tools::sample_decoder::{derive_coefficients, Decoder};

#[test]
fn coefficients_concrete() {
    let c: (i64, i64) = derive_coefficients(500, 44100);
    assert_eq!(c, (7350, -3297));
    let c2: (i64, i64) = derive_coefficients(1000, 48000);
    assert_eq!(c2, (6708, -2746));
}

#[test]
fn coefficients_zero_sample_rate() {
    assert_eq!(derive_coefficients(500, 0), (0, 0));
    assert_eq!(derive_coefficients(0, 0), (0, 0));
}

#[test]
fn coefficients_deterministic() {
    let d1: Decoder = Decoder::new(500, 44100);
    let d2: Decoder = Decoder::new(500, 44100);
    assert_eq!(d1.coefficient_1, d2.coefficient_1);
    assert_eq!(d1.coefficient_2, d2.coefficient_2);
    assert_eq!(d1.previous_sample_1, 0);
    assert_eq!(d1.previous_sample_2, 0);
    let d3: Decoder = Decoder::new(1000, 48000);
    let d4: Decoder = Decoder::new(1000, 48000);
    assert_eq!(d3.coefficient_1, d4.coefficient_1);
    assert_eq!(d3.coefficient_2, d4.coefficient_2);
}

#[test]
fn decode_sample_concrete() {
    let mut d: Decoder = Decoder::new(500, 44100);
    assert_eq!(d.coefficient_1, 7350);
    assert_eq!(d.coefficient_2, -3297);
    // Nibble 7 at scale 100 with zero history: no prediction yet.
    assert_eq!(d.decode_sample(7, 100), 700);
    assert_eq!(d.previous_sample_1, 700);
    assert_eq!(d.previous_sample_2, 0);
    // Nibble 8 sign-extends to -8; the prediction from 700 pulls it up.
    assert_eq!(d.decode_sample(8, 100), 456);
    assert_eq!(d.previous_sample_1, 456);
    assert_eq!(d.previous_sample_2, 700);
}

#[test]
fn decode_sample_deterministic() {
    let mut d1: Decoder = Decoder::new(500, 44100);
    let mut d2: Decoder = Decoder::new(500, 44100);
    for nibble in 0..16 {
        let a: i32 = d1.decode_sample(nibble, 513);
        let b: i32 = d2.decode_sample(nibble, 513);
        assert_eq!(a, b);
    }
    assert_eq!(d1.previous_sample_1, d2.previous_sample_1);
    assert_eq!(d1.previous_sample_2, d2.previous_sample_2);
}

#[test]
fn decode_sample_clamp_bounds() {
    let mut d: Decoder = Decoder::new(500, 44100);
    // 7 * 0xFFFF far exceeds the positive bound.
    assert_eq!(d.decode_sample(7, 0xFFFF), 32767);
    // -8 * 0xFFFF falls below -32768; the asymmetric clamp yields -32767.
    assert_eq!(d.decode_sample(8, 0xFFFF), -32767);
    let mut e: Decoder = Decoder::new(500, 44100);
    for nibble in 0..16 {
        let v: i32 = e.decode_sample(nibble, 0xFFFF);
        assert!(-32768 <= v && v <= 32767);
    }
}
