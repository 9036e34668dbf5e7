//! Integer arithmetic shared by the controllers.
//!
//! World space is measured in whole world units and time in whole
//! nanoseconds, so every formula of the engine is an integer formula. Wherever
//! a quotient appears it is the flooring one: in specifications `a / d` on
//! `int` with a positive `d` already is, and [`div_floor`] computes it.

use vstd::prelude::*;
use vstd::arithmetic::div_mod::{lemma_fundamental_div_mod, lemma_fundamental_div_mod_converse};

verus! {

/// `x` limited to the closed range from `lo` to `hi`.
pub open spec fn clamp(x: int, lo: int, hi: int) -> int {
    if x < lo {
        lo
    } else if x > hi {
        hi
    } else {
        x
    }
}

/// The smaller of two integers.
pub open spec fn min_int(a: int, b: int) -> int {
    if a <= b {
        a
    } else {
        b
    }
}

/// The quotient of `a` by a positive `d`, rounded towards negative infinity.
pub(crate) fn div_floor(a: i128, d: i128) -> (q: i128)
    requires
        d > 0,
        a > i128::MIN,
    ensures
        q == a / d,
{
    if a >= 0 {
        a / d
    } else {
        let m: i128 = -(a + 1);
        let k: i128 = m / d;
        proof {
            let r: int = (m as int) % (d as int);
            lemma_fundamental_div_mod(m as int, d as int);
            assert(a == (-k - 1) * d + (d - 1 - r)) by (nonlinear_arith)
                requires
                    m == d * k + r,
                    a == -m - 1,
            ;
            lemma_fundamental_div_mod_converse(a as int, d as int, -k - 1, d - 1 - r);
        }
        -k - 1
    }
}

/// `x` limited to the closed range from `lo` to `hi`.
pub(crate) fn clamp_i64(x: i128, lo: i64, hi: i64) -> (r: i64)
    requires
        lo <= hi,
    ensures
        r == clamp(x as int, lo as int, hi as int),
{
    if x < lo as i128 {
        lo
    } else if x > hi as i128 {
        hi
    } else {
        x as i64
    }
}

} // verus!
