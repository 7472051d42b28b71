//! The pan-and-zoom transform between canvas-local and screen space.
//!
//! A canvas-local point `p` is shown at `(p + translation) * scaling`; the
//! scale is applied about the canvas origin.

use vstd::prelude::*;
use crate::fixed::{div_floor, saturate, saturating, UNIT};
use crate::geometry::{Point, Vector};

verus! {

/// Smallest scale factor the canvas accepts: one tenth.
pub const MIN_SCALING: i32 = 100;

/// Largest scale factor the canvas accepts: five.
pub const MAX_SCALING: i32 = 5000;

/// Largest magnitude of a wide intermediate that [`scaled`] and [`unscaled`] take.
pub const WIDE: i64 = 0x100_0000_0000;

/// Whether `scaling` lies within the accepted zoom range.
pub open spec fn valid_scaling(scaling: int) -> bool {
    MIN_SCALING <= scaling <= MAX_SCALING
}

/// `scaling` brought into the accepted zoom range.
pub open spec fn spec_clamp_scaling(scaling: i32) -> i32 {
    if scaling < MIN_SCALING {
        MIN_SCALING
    } else if scaling > MAX_SCALING {
        MAX_SCALING
    } else {
        scaling
    }
}

#[verifier::when_used_as_spec(spec_clamp_scaling)]
pub fn clamp_scaling(scaling: i32) -> (clamped: i32)
    ensures
        clamped == spec_clamp_scaling(scaling),
        valid_scaling(clamped as int),
{
    if scaling < MIN_SCALING {
        MIN_SCALING
    } else if scaling > MAX_SCALING {
        MAX_SCALING
    } else {
        scaling
    }
}

/// `v` multiplied by the scale factor, rounded down.
pub open spec fn spec_scaled(v: int, scaling: int) -> int {
    v * scaling / (UNIT as int)
}

/// `v` divided by the scale factor, rounded down.
pub open spec fn spec_unscaled(v: int, scaling: int) -> int {
    v * UNIT / scaling
}

/// Multiplies a wide intermediate by a scale factor, rounding down.
pub fn scaled(v: i64, scaling: i32) -> (r: i64)
    requires
        -WIDE <= v <= WIDE,
        0 < scaling <= MAX_SCALING,
    ensures
        r == spec_scaled(v as int, scaling as int),
        -WIDE * 5 <= r <= WIDE * 5,
{
    assert(-WIDE * 5000 <= v * scaling <= WIDE * 5000) by (nonlinear_arith)
        requires
            -WIDE <= v <= WIDE,
            0 < scaling <= 5000,
    ;
    div_floor(v * (scaling as i64), UNIT as i64)
}

/// Divides a wide intermediate by a scale factor, rounding down.
pub fn unscaled(v: i64, scaling: i32) -> (r: i64)
    requires
        -WIDE <= v <= WIDE,
        0 < scaling,
    ensures
        r == spec_unscaled(v as int, scaling as int),
        -WIDE * 1000 <= r <= WIDE * 1000,
{
    assert(-WIDE * 1000 <= v * UNIT <= WIDE * 1000) by (nonlinear_arith)
        requires
            -WIDE <= v <= WIDE,
            UNIT == 1000,
    ;
    let n: i64 = v * (UNIT as i64);
    proof {
        lemma_div_floor_bounds(n as int, scaling as int);
    }
    div_floor(n, scaling as i64)
}

/// A floor quotient by a positive divisor is no larger in magnitude than its
/// numerator, up to the one unit that rounding down may add.
pub proof fn lemma_div_floor_bounds(n: int, d: int)
    requires
        d > 0,
    ensures
        n >= 0 ==> 0 <= n / d <= n,
        n < 0 ==> n <= n / d < 0,
{
    vstd::arithmetic::div_mod::lemma_fundamental_div_mod(n, d);
    vstd::arithmetic::div_mod::lemma_mod_bound(n, d);
    let q = n / d;
    let r = n % d;
    if n >= 0 {
        assert(0 <= q <= n) by (nonlinear_arith)
            requires
                n == d * q + r,
                0 <= r < d,
                d > 0,
                n >= 0,
        ;
    } else {
        assert(n <= q < 0) by (nonlinear_arith)
            requires
                n == d * q + r,
                0 <= r < d,
                d > 0,
                n < 0,
        ;
    }
}

/// Taking a canvas-local coordinate to the screen and back returns it, less
/// what rounding down twice may lose: at most ten units, a hundredth of a
/// pixel.
pub proof fn lemma_back_and_forth(v: int, translation: int, scaling: int)
    requires
        valid_scaling(scaling),
    ensures
        ({
            let shown = spec_scaled(v + translation, scaling);
            let back = spec_unscaled(shown, scaling) - translation;
            v - 10 <= back <= v
        }),
{
    let u = UNIT as int;
    let w = v + translation;
    let shown = (w * scaling) / u;
    let lost = (w * scaling) % u;
    vstd::arithmetic::div_mod::lemma_fundamental_div_mod(w * scaling, u);
    vstd::arithmetic::div_mod::lemma_mod_bound(w * scaling, u);
    let back = (shown * u) / scaling;
    let lost_again = (shown * u) % scaling;
    vstd::arithmetic::div_mod::lemma_fundamental_div_mod(shown * u, scaling);
    vstd::arithmetic::div_mod::lemma_mod_bound(shown * u, scaling);
    assert((w - back) * scaling == lost + lost_again) by (nonlinear_arith)
        requires
            w * scaling == u * shown + lost,
            shown * u == scaling * back + lost_again,
    ;
    assert(0 <= w - back <= 10) by (nonlinear_arith)
        requires
            (w - back) * scaling == lost + lost_again,
            0 <= lost < 1000,
            0 <= lost_again < scaling,
            100 <= scaling,
    ;
}

/// A scale factor and a translation, as the host last committed them.
#[derive(Clone, Copy, Debug, PartialEq, Eq, Structural)]
pub struct Transform {
    pub scaling: i32,
    pub translation: Vector,
}

impl Transform {
    /// The scale factor lies within the accepted zoom range.
    pub open spec fn wf(self) -> bool {
        valid_scaling(self.scaling as int)
    }

    /// Screen position of the canvas-local point `p`.
    pub open spec fn spec_apply(self, p: Point) -> Point {
        Point {
            x: saturate(spec_scaled(p.x + self.translation.x, self.scaling as int)),
            y: saturate(spec_scaled(p.y + self.translation.y, self.scaling as int)),
        }
    }

    pub fn apply(&self, p: Point) -> (q: Point)
        requires
            self.wf(),
        ensures
            q == self.spec_apply(p),
    {
        Point {
            x: saturating(scaled(p.x as i64 + self.translation.x as i64, self.scaling)),
            y: saturating(scaled(p.y as i64 + self.translation.y as i64, self.scaling)),
        }
    }

    /// Canvas-local position of the screen point `c`.
    pub open spec fn spec_invert(self, c: Point) -> Point {
        Point {
            x: saturate(spec_unscaled(c.x as int, self.scaling as int) - self.translation.x),
            y: saturate(spec_unscaled(c.y as int, self.scaling as int) - self.translation.y),
        }
    }

    pub fn invert(&self, c: Point) -> (p: Point)
        requires
            self.wf(),
        ensures
            p == self.spec_invert(c),
    {
        Point {
            x: saturating(unscaled(c.x as i64, self.scaling) - self.translation.x as i64),
            y: saturating(unscaled(c.y as i64, self.scaling) - self.translation.y as i64),
        }
    }
}

/// At scale one and without translation, canvas-local and screen space
/// coincide.
pub proof fn lemma_identity(p: Point)
    ensures
        (Transform { scaling: UNIT, translation: Vector::zero() }).spec_apply(p) == p,
        (Transform { scaling: UNIT, translation: Vector::zero() }).spec_invert(p) == p,
{
    assert(p.x * 1000 / 1000 == p.x);
    assert(p.y * 1000 / 1000 == p.y);
}

} // verus!
