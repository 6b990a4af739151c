use nexrad_volumetric::error::Error;
use nexrad_volumetric::gate::{scale_gate, scale_gates, ScaledGate};

#[test]
fn raw_zero_is_below_threshold() {
    assert_eq!(scale_gate(0, 2_000, 66_000), ScaledGate::BelowThreshold);
    assert_eq!(scale_gate(0, 0, 0), ScaledGate::BelowThreshold);
    assert_eq!(scale_gate(0, -3_000, 1), ScaledGate::BelowThreshold);
}

#[test]
fn raw_one_is_folded() {
    assert_eq!(scale_gate(1, 2_000, 66_000), ScaledGate::MomentFolded);
    assert_eq!(scale_gate(1, 0, 12_345), ScaledGate::MomentFolded);
}

#[test]
fn zero_scale_passes_raw_through() {
    assert_eq!(scale_gate(5, 0, 777_000), ScaledGate::Value(5_000));
    assert_eq!(scale_gate(65_535, 0, -1), ScaledGate::Value(65_535_000));
}

#[test]
fn rescales_by_scale_and_offset() {
    // (5.0 - 0.0) / 2.0 == 2.5
    assert_eq!(scale_gate(5, 2_000, 0), ScaledGate::Value(2_500));
    // (2.0 - 66.0) / 2.0 == -32.0
    assert_eq!(scale_gate(2, 2_000, 66_000), ScaledGate::Value(-32_000));
}

#[test]
fn rescaling_truncates_toward_zero() {
    assert_eq!(scale_gate(2, 3_000, 0), ScaledGate::Value(666));
    assert_eq!(scale_gate(2, 3_000, 4_000), ScaledGate::Value(-666));
}

#[test]
fn word_size_must_be_eight() {
    let raw = vec![0u16, 1, 5];
    assert_eq!(
        scale_gates(&raw, 16, 2_000, 0),
        Err(Error::UnsupportedWordSize)
    );
    assert_eq!(
        scale_gates(&raw, 7, 0, 0),
        Err(Error::UnsupportedWordSize)
    );
}

#[test]
fn scales_a_whole_buffer_in_order() {
    let raw = vec![0u16, 1, 5, 2];
    let scaled = scale_gates(&raw, 8, 2_000, 0).unwrap();
    assert_eq!(
        scaled,
        vec![
            ScaledGate::BelowThreshold,
            ScaledGate::MomentFolded,
            ScaledGate::Value(2_500),
            ScaledGate::Value(1_000),
        ]
    );
}
