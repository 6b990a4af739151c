//! Gate scaler: converts raw per-gate integer magnitudes into physical
//! reflectivity readings, with sentinel codes for "below threshold" and
//! "folded" gates.
//!
//! Reflectivity is carried in milli-units (1000 = 1.0 dBZ-like unit).
//! Raw value 0 codes "no valid return", raw value 1 codes an ambiguous
//! (folded) return; every other raw value is rescaled as
//! `(raw - offset) / scale`, except that a zero scale passes the raw value
//! through unscaled.

use crate::fixed::{trunc_div, trunc_div_i64};
use vstd::prelude::*;

verus! {

/// Milli-unit reading of the "no valid return" sentinel (999.0 units).
pub const BELOW_THRESHOLD_MILLI: i64 = 999_000;

/// Milli-unit reading of the "ambiguous / folded return" sentinel (998.0 units).
pub const MOMENT_FOLDED_MILLI: i64 = 998_000;

/// Largest magnitude accepted for a radial's calibration scale and offset,
/// in milli-units (one million physical units). The bound keeps the
/// rescaling arithmetic inside `i64`.
pub const CALIBRATION_LIMIT_MILLI: i64 = 1_000_000_000;

/// One scaled reflectivity gate: a physical reading in milli-units, or one
/// of the two sentinel codes. Sentinels are distinct variants, never ranges,
/// so a real low reflectivity cannot be mistaken for a missing return.
#[derive(Clone, Copy, Debug, PartialEq, Eq, Structural)]
pub enum ScaledGate {
    /// No valid return in this gate.
    BelowThreshold,
    /// Ambiguous (folded) return in this gate.
    MomentFolded,
    /// A real reflectivity reading, in milli-units.
    Value(i64),
}

impl ScaledGate {
    /// The numeric reading of a gate in milli-units; the sentinels read as
    /// the conventional constants 999.0 and 998.0.
    pub open spec fn strength_milli(self) -> int {
        match self {
            ScaledGate::BelowThreshold => BELOW_THRESHOLD_MILLI as int,
            ScaledGate::MomentFolded => MOMENT_FOLDED_MILLI as int,
            ScaledGate::Value(v) => v as int,
        }
    }
}

/// The scaling rule for one gate: 0 and 1 are the sentinel codes; any other
/// raw value becomes `(raw - offset) / scale` in milli-units, or passes
/// through unscaled when the scale is zero.
pub open spec fn spec_scale_gate(raw: u16, scale_milli: i64, offset_milli: i64) -> ScaledGate {
    if raw == 0 {
        ScaledGate::BelowThreshold
    } else if raw == 1 {
        ScaledGate::MomentFolded
    } else if scale_milli == 0 {
        ScaledGate::Value((raw * 1000) as i64)
    } else {
        ScaledGate::Value(trunc_div((raw * 1000 - offset_milli) * 1000, scale_milli as int) as i64)
    }
}

/// A whole raw gate buffer under the scaling rule, kept in order and length.
pub open spec fn spec_scale_gates(raw: Seq<u16>, scale_milli: i64, offset_milli: i64) -> Seq<
    ScaledGate,
> {
    Seq::new(raw.len(), |i: int| spec_scale_gate(raw[i], scale_milli, offset_milli))
}

/// Scales one raw gate magnitude by the radial's calibration, producing a
/// sentinel for the two reserved codes.
pub fn scale_gate(raw: u16, scale_milli: i64, offset_milli: i64) -> (g: ScaledGate)
    requires
        -CALIBRATION_LIMIT_MILLI <= scale_milli <= CALIBRATION_LIMIT_MILLI,
        -CALIBRATION_LIMIT_MILLI <= offset_milli <= CALIBRATION_LIMIT_MILLI,
    ensures
        g == spec_scale_gate(raw, scale_milli, offset_milli),
{
    if raw == 0 {
        ScaledGate::BelowThreshold
    } else if raw == 1 {
        ScaledGate::MomentFolded
    } else if scale_milli == 0 {
        ScaledGate::Value(raw as i64 * 1000)
    } else {
        let numerator: i64 = (raw as i64 * 1000 - offset_milli) * 1000;
        ScaledGate::Value(trunc_div_i64(numerator, scale_milli))
    }
}

/// Scales a radial's whole raw gate buffer. The only on-wire word size this
/// format carries today is 8 bits; any other word size is a hard decode
/// error, never a warning.
pub fn scale_gates(raw_gates: &Vec<u16>, word_size: u8, scale_milli: i64, offset_milli: i64) -> (r:
    Result<Vec<ScaledGate>, crate::error::Error>)
    requires
        -CALIBRATION_LIMIT_MILLI <= scale_milli <= CALIBRATION_LIMIT_MILLI,
        -CALIBRATION_LIMIT_MILLI <= offset_milli <= CALIBRATION_LIMIT_MILLI,
    ensures
        word_size == 8 ==> r is Ok && r->Ok_0@ == spec_scale_gates(
            raw_gates@,
            scale_milli,
            offset_milli,
        ),
        word_size != 8 ==> r == Result::<Vec<ScaledGate>, crate::error::Error>::Err(
            crate::error::Error::UnsupportedWordSize,
        ),
{
    if word_size != 8 {
        return Err(crate::error::Error::UnsupportedWordSize);
    }
    Ok(scale_gate_buffer(raw_gates, scale_milli, offset_milli))
}

/// The scaling loop over a buffer whose word size has already been checked.
pub(crate) fn scale_gate_buffer(raw_gates: &Vec<u16>, scale_milli: i64, offset_milli: i64) -> (r:
    Vec<ScaledGate>)
    requires
        -CALIBRATION_LIMIT_MILLI <= scale_milli <= CALIBRATION_LIMIT_MILLI,
        -CALIBRATION_LIMIT_MILLI <= offset_milli <= CALIBRATION_LIMIT_MILLI,
    ensures
        r@ == spec_scale_gates(raw_gates@, scale_milli, offset_milli),
{
    let mut scaled: Vec<ScaledGate> = Vec::new();
    let n = raw_gates.len();
    for i in 0..n
        invariant
            n == raw_gates@.len(),
            scaled@.len() == i,
            forall|j: int|
                0 <= j < i ==> scaled@[j] == spec_scale_gate(
                    raw_gates@[j],
                    scale_milli,
                    offset_milli,
                ),
            -CALIBRATION_LIMIT_MILLI <= scale_milli <= CALIBRATION_LIMIT_MILLI,
            -CALIBRATION_LIMIT_MILLI <= offset_milli <= CALIBRATION_LIMIT_MILLI,
    {
        scaled.push(scale_gate(raw_gates[i], scale_milli, offset_milli));
    }
    assert(scaled@ =~= spec_scale_gates(raw_gates@, scale_milli, offset_milli));
    scaled
}

/// Law: a raw value of 0 always scales to the below-threshold sentinel and a
/// raw value of 1 to the folded sentinel, whatever the calibration; with a
/// zero scale every other raw value passes through unscaled (in milli-units).
pub proof fn lemma_scale_gate_sentinels(raw: u16, scale_milli: i64, offset_milli: i64)
    ensures
        spec_scale_gate(0, scale_milli, offset_milli) == ScaledGate::BelowThreshold,
        spec_scale_gate(1, scale_milli, offset_milli) == ScaledGate::MomentFolded,
        raw != 0 && raw != 1 ==> spec_scale_gate(raw, 0, offset_milli) == ScaledGate::Value(
            (raw * 1000) as i64,
        ),
{
}

} // verus!
