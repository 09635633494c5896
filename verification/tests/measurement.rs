use telemetry_session::measurement::is_finite;
use telemetry_session::measurement::Measurement;
use telemetry_session::measurement::EXPONENT_MASK;

#[test]
fn new_keeps_the_three_readings() {
    let m = Measurement::new(21.5f32.to_bits(), 101.3f32.to_bits(), 40.0f32.to_bits());
    assert_eq!(f32::from_bits(m.temperature), 21.5);
    assert_eq!(f32::from_bits(m.pressure), 101.3);
    assert_eq!(f32::from_bits(m.humidity), 40.0);
}

#[test]
fn exponent_mask_covers_bits_23_to_30() {
    assert_eq!(EXPONENT_MASK, 0x7f80_0000);
    assert_eq!(EXPONENT_MASK, 0xffu32 << 23);
}

#[test]
fn ordinary_numbers_are_finite() {
    assert!(is_finite(0.0f32.to_bits()));
    assert!(is_finite((-0.0f32).to_bits()));
    assert!(is_finite(21.5f32.to_bits()));
    assert!(is_finite((-273.15f32).to_bits()));
    assert!(is_finite(f32::MAX.to_bits()));
    assert!(is_finite(f32::MIN.to_bits()));
    assert!(is_finite(f32::MIN_POSITIVE.to_bits()));
    assert!(is_finite(1u32));
    assert!(is_finite(0x7f7f_ffff));
}

#[test]
fn infinities_and_nan_are_not_finite() {
    assert!(!is_finite(f32::INFINITY.to_bits()));
    assert!(!is_finite(f32::NEG_INFINITY.to_bits()));
    assert!(!is_finite(f32::NAN.to_bits()));
    assert!(!is_finite(0x7f80_0000));
    assert!(!is_finite(0xff80_0000));
    assert!(!is_finite(0x7f80_0001));
    assert!(!is_finite(0xffff_ffff));
}

#[test]
fn finite_check_agrees_with_the_standard_library() {
    let samples = [
        0u32,
        1,
        0x0080_0000,
        0x3f80_0000,
        0x7f7f_ffff,
        0x7f80_0000,
        0x7fc0_0000,
        0x8000_0000,
        0xbf80_0000,
        0xff7f_ffff,
        0xff80_0000,
        0xffc0_0000,
    ];
    for bits in samples {
        assert_eq!(is_finite(bits), f32::from_bits(bits).is_finite());
    }
}

#[test]
fn record_is_well_formed_when_all_readings_are_finite() {
    let m = Measurement::new(21.5f32.to_bits(), 101.3f32.to_bits(), 40.0f32.to_bits());
    assert!(m.is_well_formed());
}

#[test]
fn one_bad_reading_spoils_the_record() {
    let good = 1.0f32.to_bits();
    let nan = f32::NAN.to_bits();
    let inf = f32::INFINITY.to_bits();
    assert!(!Measurement::new(nan, good, good).is_well_formed());
    assert!(!Measurement::new(good, inf, good).is_well_formed());
    assert!(!Measurement::new(good, good, nan).is_well_formed());
    assert!(!Measurement::new(inf, inf, inf).is_well_formed());
}

#[test]
fn records_compare_by_their_readings() {
    let a = Measurement::new(1, 2, 3);
    let b = Measurement::new(1, 2, 3);
    let c = Measurement::new(1, 2, 4);
    assert_eq!(a, b);
    assert_ne!(a, c);
}
