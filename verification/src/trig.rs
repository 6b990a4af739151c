//! Fixed-point circular functions for the projector.
//!
//! Angles are in millidegrees; results are in micro-units (1_000_000 is
//! 1.0). Sine on a half turn is computed with the classical quadratic
//! ratio `4·y·(half − y) / (c − y·(half − y))` (with `c` chosen so the
//! quarter turn is exactly one), which is exact at 0, a quarter turn and a
//! half turn and within two tenths of a percent elsewhere — ample for
//! placing render points — and extended to the full circle by symmetry.
//! Everything is integer arithmetic, so projection is bit-deterministic.

use vstd::arithmetic::div_mod::{
    lemma_div_is_ordered, lemma_div_multiples_vanish, lemma_div_pos_is_pos,
    lemma_mod_multiples_vanish, lemma_small_mod,
};
use vstd::prelude::*;

verus! {

/// One full turn, in millidegrees.
pub const FULL_TURN_MILLI: i64 = 360_000;

/// Half a turn, in millidegrees.
pub const HALF_TURN_MILLI: i64 = 180_000;

/// A quarter turn, in millidegrees.
pub const QUARTER_TURN_MILLI: i64 = 90_000;

/// The fixed-point unit of the circular functions: 1_000_000 is 1.0.
pub const TRIG_ONE_MICRO: i64 = 1_000_000;

/// Denominator constant of the quadratic sine ratio, scaled to
/// millidegrees.
pub const SINE_DENOMINATOR: i64 = 40_500_000_000;

/// Sine over the first half turn (`0 <= y <= 180_000` millidegrees), in
/// micro-units, by the quadratic ratio.
pub open spec fn spec_sin_half(y: int) -> int {
    (4_000_000 * (y * (HALF_TURN_MILLI - y))) / (SINE_DENOMINATOR - y * (HALF_TURN_MILLI - y))
}

/// Sine of any angle in millidegrees, in micro-units: the angle is wrapped
/// into one turn and the second half turn mirrors the first negatively.
pub open spec fn spec_sin_micro(a: int) -> int {
    let n = a % (FULL_TURN_MILLI as int);
    if n <= HALF_TURN_MILLI {
        spec_sin_half(n)
    } else {
        -spec_sin_half(n - HALF_TURN_MILLI)
    }
}

/// Cosine as the quarter-turn shift of sine.
pub open spec fn spec_cos_micro(a: int) -> int {
    spec_sin_micro(a + QUARTER_TURN_MILLI)
}

/// The parabola `y·(half − y)` peaks at the quarter turn.
proof fn lemma_axis_bounds(y: int)
    requires
        0 <= y <= HALF_TURN_MILLI,
    ensures
        0 <= y * (HALF_TURN_MILLI - y) <= 8_100_000_000,
{
    assert(0 <= y * (180_000 - y) <= 8_100_000_000) by (nonlinear_arith)
        requires
            0 <= y <= 180_000,
    ;
}

/// The quadratic sine ratio stays within one unit over the half turn.
pub proof fn lemma_sin_half_bounds(y: int)
    requires
        0 <= y <= HALF_TURN_MILLI,
    ensures
        0 <= spec_sin_half(y) <= TRIG_ONE_MICRO,
{
    lemma_axis_bounds(y);
    let axis = y * (HALF_TURN_MILLI - y);
    let num = 4_000_000 * axis;
    let den = SINE_DENOMINATOR - axis;
    assert(num <= 1_000_000 * den);
    lemma_div_pos_is_pos(num, den);
    lemma_div_multiples_vanish(1_000_000, den);
    lemma_div_is_ordered(num, 1_000_000 * den, den);
}

/// Sine in micro-units never leaves one unit in magnitude.
pub proof fn lemma_sin_bounds(a: int)
    ensures
        -TRIG_ONE_MICRO <= spec_sin_micro(a) <= TRIG_ONE_MICRO,
{
    let n = a % (FULL_TURN_MILLI as int);
    assert(0 <= n < FULL_TURN_MILLI);
    if n <= HALF_TURN_MILLI {
        lemma_sin_half_bounds(n);
    } else {
        lemma_sin_half_bounds(n - HALF_TURN_MILLI);
    }
}

/// Cosine in micro-units never leaves one unit in magnitude.
pub proof fn lemma_cos_bounds(a: int)
    ensures
        -TRIG_ONE_MICRO <= spec_cos_micro(a) <= TRIG_ONE_MICRO,
{
    lemma_sin_bounds(a + QUARTER_TURN_MILLI);
}

/// Sine over the first half turn, by the quadratic ratio.
fn sin_half_micro(y: i64) -> (s: i64)
    requires
        0 <= y <= HALF_TURN_MILLI,
    ensures
        s == spec_sin_half(y as int),
        0 <= s <= TRIG_ONE_MICRO,
{
    proof {
        lemma_axis_bounds(y as int);
        lemma_sin_half_bounds(y as int);
    }
    let axis: i64 = y * (HALF_TURN_MILLI - y);
    let num: i64 = 4_000_000 * axis;
    let den: i64 = SINE_DENOMINATOR - axis;
    let q: u64 = (num as u64) / (den as u64);
    q as i64
}

/// Wraps an angle into one turn. The accepted range covers every angle the
/// projector forms: a snapped azimuth below two turns, shifted by at most a
/// quarter turn for cosine, and elevations down to a negative full turn.
fn normalize_angle(a_milli: i64) -> (n: i64)
    requires
        -FULL_TURN_MILLI <= a_milli < 3 * FULL_TURN_MILLI,
    ensures
        n == (a_milli as int) % (FULL_TURN_MILLI as int),
        0 <= n < FULL_TURN_MILLI,
{
    let ghost turn = FULL_TURN_MILLI as int;
    let mut n: i64 = a_milli;
    let ghost mut k: int = 0;
    if n < 0 {
        n = n + FULL_TURN_MILLI;
        proof {
            k = k - 1;
        }
    }
    if n >= 2 * FULL_TURN_MILLI {
        n = n - 2 * FULL_TURN_MILLI;
        proof {
            k = k + 2;
        }
    }
    if n >= FULL_TURN_MILLI {
        n = n - FULL_TURN_MILLI;
        proof {
            k = k + 1;
        }
    }
    proof {
        assert(a_milli as int == turn * k + n);
        lemma_mod_multiples_vanish(k, n as int, turn);
        lemma_small_mod(n as nat, turn as nat);
    }
    n
}

/// Sine of an angle in millidegrees, in micro-units.
pub fn sin_micro(a_milli: i64) -> (s: i64)
    requires
        -FULL_TURN_MILLI <= a_milli < 3 * FULL_TURN_MILLI,
    ensures
        s == spec_sin_micro(a_milli as int),
        -TRIG_ONE_MICRO <= s <= TRIG_ONE_MICRO,
{
    let n = normalize_angle(a_milli);
    if n <= HALF_TURN_MILLI {
        sin_half_micro(n)
    } else {
        -sin_half_micro(n - HALF_TURN_MILLI)
    }
}

/// Cosine of an angle in millidegrees, in micro-units.
pub fn cos_micro(a_milli: i64) -> (c: i64)
    requires
        -FULL_TURN_MILLI <= a_milli < 3 * FULL_TURN_MILLI - QUARTER_TURN_MILLI,
    ensures
        c == spec_cos_micro(a_milli as int),
        -TRIG_ONE_MICRO <= c <= TRIG_ONE_MICRO,
{
    sin_micro(a_milli + QUARTER_TURN_MILLI)
}

} // verus!
