//! Color classifier: maps a scaled reflectivity reading to a fixed RGB
//! bucket, in half-open bins of width 5 units starting at 5.
//!
//! Readings below 5 units, and the below-threshold sentinel, map to black;
//! readings of 70 units or more map to white. The table is a fixed physical
//! convention, and classification is total over every milli-unit reading.

use crate::gate::BELOW_THRESHOLD_MILLI;
use vstd::arithmetic::div_mod::lemma_div_is_ordered;
use vstd::prelude::*;

verus! {

/// One color triple of the fixed reflectivity table.
#[derive(Clone, Copy, Debug, PartialEq, Eq, Structural)]
pub struct Rgb {
    pub r: u8,
    pub g: u8,
    pub b: u8,
}

/// Width of one reflectivity bin, in milli-units (5.0 units).
pub const BIN_WIDTH_MILLI: i64 = 5_000;

/// First reading classified white, in milli-units (70.0 units).
pub const WHITE_FLOOR_MILLI: i64 = 70_000;

/// Which bin a milli-unit reading falls in: bin 0 is black (readings under
/// 5 units and the below-threshold sentinel), bins 1 to 13 are the half-open
/// 5-unit bins from 5 to 70, and bin 14 is white.
pub open spec fn bin_of(v: int) -> int {
    if v == BELOW_THRESHOLD_MILLI {
        0
    } else if v < BIN_WIDTH_MILLI {
        0
    } else if v >= WHITE_FLOOR_MILLI {
        14
    } else {
        v / (BIN_WIDTH_MILLI as int)
    }
}

/// The membership predicate of one bin, as a direct statement over the
/// reading: exactly one of these holds for any reading.
pub open spec fn in_bin(v: int, k: int) -> bool {
    if k == 0 {
        v < BIN_WIDTH_MILLI || v == BELOW_THRESHOLD_MILLI
    } else if 1 <= k < 14 {
        k * BIN_WIDTH_MILLI <= v < (k + 1) * BIN_WIDTH_MILLI
    } else if k == 14 {
        v >= WHITE_FLOOR_MILLI && v != BELOW_THRESHOLD_MILLI
    } else {
        false
    }
}

/// The fixed color of each bin, black through white.
pub open spec fn color_table(k: int) -> Rgb {
    if k == 1 {
        Rgb { r: 0x40, g: 0xe8, b: 0xe3 }
    } else if k == 2 {
        Rgb { r: 0x26, g: 0xa4, b: 0xfa }
    } else if k == 3 {
        Rgb { r: 0x00, g: 0x30, b: 0xed }
    } else if k == 4 {
        Rgb { r: 0x49, g: 0xfb, b: 0x3e }
    } else if k == 5 {
        Rgb { r: 0x36, g: 0xc2, b: 0x2e }
    } else if k == 6 {
        Rgb { r: 0x27, g: 0x8c, b: 0x1e }
    } else if k == 7 {
        Rgb { r: 0xfe, g: 0xf5, b: 0x43 }
    } else if k == 8 {
        Rgb { r: 0xeb, g: 0xb4, b: 0x33 }
    } else if k == 9 {
        Rgb { r: 0xf6, g: 0x95, b: 0x2e }
    } else if k == 10 {
        Rgb { r: 0xf8, g: 0x0a, b: 0x26 }
    } else if k == 11 {
        Rgb { r: 0xcb, g: 0x05, b: 0x16 }
    } else if k == 12 {
        Rgb { r: 0xa9, g: 0x08, b: 0x13 }
    } else if k == 13 {
        Rgb { r: 0xee, g: 0x34, b: 0xfa }
    } else if k == 14 {
        Rgb { r: 0xff, g: 0xff, b: 0xff }
    } else {
        Rgb { r: 0, g: 0, b: 0 }
    }
}

/// The color of a milli-unit reading under the fixed table.
pub open spec fn spec_classify(v: int) -> Rgb {
    color_table(bin_of(v))
}

/// Classifies a scaled reflectivity reading (milli-units) into its fixed
/// RGB bucket. Total: every reading gets exactly one color.
pub fn classify_color(v_milli: i64) -> (c: Rgb)
    ensures
        c == spec_classify(v_milli as int),
{
    if v_milli < 5_000 || v_milli == BELOW_THRESHOLD_MILLI {
        Rgb { r: 0, g: 0, b: 0 }
    } else if v_milli < 10_000 {
        Rgb { r: 0x40, g: 0xe8, b: 0xe3 }
    } else if v_milli < 15_000 {
        Rgb { r: 0x26, g: 0xa4, b: 0xfa }
    } else if v_milli < 20_000 {
        Rgb { r: 0x00, g: 0x30, b: 0xed }
    } else if v_milli < 25_000 {
        Rgb { r: 0x49, g: 0xfb, b: 0x3e }
    } else if v_milli < 30_000 {
        Rgb { r: 0x36, g: 0xc2, b: 0x2e }
    } else if v_milli < 35_000 {
        Rgb { r: 0x27, g: 0x8c, b: 0x1e }
    } else if v_milli < 40_000 {
        Rgb { r: 0xfe, g: 0xf5, b: 0x43 }
    } else if v_milli < 45_000 {
        Rgb { r: 0xeb, g: 0xb4, b: 0x33 }
    } else if v_milli < 50_000 {
        Rgb { r: 0xf6, g: 0x95, b: 0x2e }
    } else if v_milli < 55_000 {
        Rgb { r: 0xf8, g: 0x0a, b: 0x26 }
    } else if v_milli < 60_000 {
        Rgb { r: 0xcb, g: 0x05, b: 0x16 }
    } else if v_milli < 65_000 {
        Rgb { r: 0xa9, g: 0x08, b: 0x13 }
    } else if v_milli < 70_000 {
        Rgb { r: 0xee, g: 0x34, b: 0xfa }
    } else {
        Rgb { r: 0xff, g: 0xff, b: 0xff }
    }
}

/// Law: classification is total and the bins partition the readings — every
/// milli-unit reading lies in exactly one bin, and the classified color is
/// that bin's table entry.
pub proof fn lemma_bins_partition(v: int)
    ensures
        0 <= bin_of(v) < 15,
        in_bin(v, bin_of(v)),
        forall|k1: int, k2: int| in_bin(v, k1) && in_bin(v, k2) ==> k1 == k2,
        spec_classify(v) == color_table(bin_of(v)),
{
    if v != BELOW_THRESHOLD_MILLI && BIN_WIDTH_MILLI <= v < WHITE_FLOOR_MILLI {
        assert(1 <= v / 5000 < 14) by {
            lemma_div_is_ordered(5000, v, 5000);
            lemma_div_is_ordered(v, 69999, 5000);
        }
        assert((v / 5000) * 5000 <= v < (v / 5000 + 1) * 5000) by {
            vstd::arithmetic::div_mod::lemma_fundamental_div_mod(v, 5000);
        }
    }
    assert forall|k1: int, k2: int| in_bin(v, k1) && in_bin(v, k2) implies k1 == k2 by {
        if 1 <= k1 < 14 && 1 <= k2 < 14 && k1 != k2 {
            assert(k1 * 5000 != k2 * 5000) by (nonlinear_arith)
                requires
                    k1 != k2,
            ;
            if k1 < k2 {
                assert((k1 + 1) * 5000 <= k2 * 5000) by (nonlinear_arith)
                    requires
                        k1 + 1 <= k2,
                ;
            } else {
                assert((k2 + 1) * 5000 <= k1 * 5000) by (nonlinear_arith)
                    requires
                        k2 + 1 <= k1,
                ;
            }
        }
    }
}

/// Law: the classification is monotone by bin — among real (non-sentinel)
/// readings, a larger reading never falls in an earlier bin.
pub proof fn lemma_bins_monotone(v1: int, v2: int)
    requires
        v1 <= v2,
        v1 != BELOW_THRESHOLD_MILLI,
        v2 != BELOW_THRESHOLD_MILLI,
    ensures
        bin_of(v1) <= bin_of(v2),
{
    if BIN_WIDTH_MILLI <= v1 && v2 < WHITE_FLOOR_MILLI {
        lemma_div_is_ordered(v1, v2, 5000);
    } else if BIN_WIDTH_MILLI <= v1 < WHITE_FLOOR_MILLI {
        lemma_div_is_ordered(v1, 69999, 5000);
    } else if BIN_WIDTH_MILLI <= v2 < WHITE_FLOOR_MILLI {
        lemma_div_is_ordered(5000, v2, 5000);
    }
}

} // verus!
