//! Sampler/decimator: reduces point count by fixed-stride selection, for
//! interactive rendering.
//!
//! With stride `k`, every k-th point of the input survives — the points at
//! original indices 0, k, 2k, … — in original relative order, with no
//! reordering and no deduplication. A zero stride is rejected.

use crate::error::Error;
use crate::project::ColoredPoint;
use vstd::arithmetic::div_mod::{
    lemma_div_is_ordered, lemma_div_multiples_vanish, lemma_div_multiples_vanish_fancy,
    lemma_fundamental_div_mod,
};
use vstd::arithmetic::mul::lemma_mul_inequality;
use vstd::prelude::*;

verus! {

/// Every k-th element of a sequence, in original order: the element at
/// index `i` of the result is the input element at index `i·k`.
pub open spec fn spec_decimated<T>(s: Seq<T>, k: int) -> Seq<T> {
    Seq::new((((s.len() + k - 1) / k) as nat), |i: int| s[i * k])
}

/// Keeps every `stride`-th point, starting with the first. Fails with the
/// invalid-stride error if and only if the stride is zero.
pub fn decimate(points: &Vec<ColoredPoint>, stride: u16) -> (r: Result<Vec<ColoredPoint>, Error>)
    ensures
        stride == 0 ==> r == Result::<Vec<ColoredPoint>, Error>::Err(Error::InvalidStride),
        stride != 0 ==> r is Ok && r->Ok_0@ == spec_decimated(points@, stride as int),
{
    if stride == 0 {
        return Err(Error::InvalidStride);
    }
    let k: usize = stride as usize;
    let len = points.len();
    let mut out: Vec<ColoredPoint> = Vec::new();
    let mut i: usize = 0;
    if len > 0 {
        proof {
            vstd::arithmetic::mul::lemma_mul_basics(k as int);
        }
        loop
            invariant_except_break
                i < len,
                i == out@.len() * k,
            invariant
                len == points@.len(),
                1 <= k,
                forall|t: int| 0 <= t < out@.len() ==> out@[t] == points@[t * (k as int)],
            ensures
                len == points@.len(),
                forall|t: int| 0 <= t < out@.len() ==> out@[t] == points@[t * (k as int)],
                out@.len() >= 1,
                len <= out@.len() * k < len + k,
            decreases len - i,
        {
            out.push(points[i]);
            proof {
                assert((out@.len() - 1) * (k as int) == i);
                assert(out@.len() * (k as int) == i + k) by (nonlinear_arith)
                    requires
                        (out@.len() - 1) * (k as int) == i,
                ;
            }
            if k >= len - i {
                break;
            }
            i = i + k;
        }
    }
    proof {
        let j = out@.len() as int;
        let ki = k as int;
        let n = len as int;
        if n == 0 {
            assert((ki - 1) / ki == 0) by {
                lemma_div_is_ordered(0, ki - 1, ki);
                vstd::arithmetic::div_mod::lemma_basic_div(ki - 1, ki);
            }
        } else {
            assert(n <= j * ki < n + ki);
            assert(j == (n + ki - 1) / ki) by {
                assert(j * ki <= n + ki - 1);
                lemma_div_is_ordered(j * ki, n + ki - 1, ki);
                lemma_div_multiples_vanish(j, ki);
                vstd::arithmetic::mul::lemma_mul_is_commutative(j, ki);
                assert(j <= (n + ki - 1) / ki);
                assert(n + ki - 1 <= j * ki + ki - 1);
                lemma_div_is_ordered(n + ki - 1, j * ki + ki - 1, ki);
                assert(ki * j + (ki - 1) == j * ki + ki - 1) by (nonlinear_arith);
                lemma_div_multiples_vanish_fancy(j, ki - 1, ki);
                assert((j * ki + ki - 1) / ki == j);
            }
        }
        assert(out@ =~= spec_decimated(points@, k as int));
    }
    Ok(out)
}

/// Each decimated element comes from a real input index: element `i` of
/// the decimated sequence is the input element at index `i·k`.
pub proof fn lemma_decimated_index<T>(s: Seq<T>, k: int, i: int)
    requires
        1 <= k,
        0 <= i < spec_decimated(s, k).len(),
    ensures
        0 <= i * k < s.len(),
        spec_decimated(s, k)[i] == s[i * k],
{
    let n = s.len() as int;
    let j = (n + k - 1) / k;
    lemma_fundamental_div_mod(n + k - 1, k);
    assert(k * j <= n + k - 1);
    assert((j - 1) * k == k * j - k) by (nonlinear_arith);
    lemma_mul_inequality(i, j - 1, k);
    assert(0 <= i * k) by (nonlinear_arith)
        requires
            0 <= i && 0 < k,
    ;
}

} // verus!
