//! Fixed-point scalars: saturation into `i32` and floor division.

use vstd::prelude::*;
use vstd::arithmetic::div_mod::{lemma_fundamental_div_mod, lemma_fundamental_div_mod_converse, lemma_mod_bound};

verus! {

/// Number of units in one logical pixel, and in a scale factor of one.
pub const UNIT: i32 = 1000;

/// The value of `v` clamped into the range of `i32`.
pub open spec fn saturate(v: int) -> i32 {
    if v < i32::MIN {
        i32::MIN
    } else if v > i32::MAX {
        i32::MAX
    } else {
        v as i32
    }
}

/// Clamps a wide intermediate result into a coordinate.
pub fn saturating(v: i64) -> (r: i32)
    ensures
        r == saturate(v as int),
{
    if v < i32::MIN as i64 {
        i32::MIN
    } else if v > i32::MAX as i64 {
        i32::MAX
    } else {
        v as i32
    }
}

/// Quotient of `n` by a positive `d`, rounded towards negative infinity.
pub fn div_floor(n: i64, d: i64) -> (q: i64)
    requires
        d > 0,
    ensures
        q == n / d,
{
    if n >= 0 {
        n / d
    } else {
        let m: i64 = -(n + 1);
        let q: i64 = m / d;
        proof {
            lemma_floor_of_negative(n as int, d as int);
        }
        -q - 1
    }
}

/// For a negative numerator the floor quotient is one below the negated
/// quotient of `-(n + 1)`.
pub proof fn lemma_floor_of_negative(n: int, d: int)
    requires
        n < 0,
        d > 0,
    ensures
        n / d == -((-(n + 1)) / d) - 1,
{
    let m = -(n + 1);
    let q = m / d;
    let r = m % d;
    lemma_fundamental_div_mod(m, d);
    lemma_mod_bound(m, d);
    assert(n == (-q - 1) * d + (d - r - 1)) by (nonlinear_arith)
        requires
            m == d * q + r,
            m == -(n + 1),
    ;
    lemma_fundamental_div_mod_converse(n, d, -q - 1, d - r - 1);
}

} // verus!
