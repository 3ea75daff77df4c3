//! Trigonometric functions on fixed-point radians.
//!
//! `sin_q` evaluates a degree-9 Taylor polynomial of the sine on the
//! first quadrant; `cos_q` recovers the cosine from it through the
//! Pythagorean identity, so that the two always satisfy
//! `s*s + c*c <= FX_ONE^2 < s*s + (c+1)^2` exactly.  `sin_rad` and
//! `cos_rad` fold an arbitrary angle into the first quadrant.
//! `atan_unit` evaluates the arctangent on [0, 1] after two half-angle
//! reductions; `atan_ratio` extends it to any non-negative ratio.
//! Each function clamps its result into the function's true range, and
//! each is specified exactly by the spec function of the same name.

use vstd::prelude::*;
use crate::fixed::{
    FX_ONE, fxm, fxd, sadd, ssub, sneg, sat64, tdiv, sqrt_floor, fx_mul, fx_div, fx_add, fx_sub,
    fx_neg, tdiv_small, fx_scale, norm2, sqrt_u128, lemma_fxd_unit,
};

verus! {

/// A quarter turn, in raw radians.
pub const HALF_PI: i64 = 1_570_796_327;

/// A half turn: exactly 2 * HALF_PI.
pub const PI: i64 = 3_141_592_654;

/// A full turn: exactly 4 * HALF_PI.
pub const TWO_PI: i64 = 6_283_185_308;

/// Degrees per radian, in raw units.
pub const RAD_TO_DEG: i64 = 57_295_779_513;

/// Sine on the first quadrant: the Horner form of
/// x - x^3/6 + x^5/120 - x^7/5040 + x^9/362880, clamped into [0, 1].
pub open spec fn sin_q_s(x: int) -> int {
    let t = fxm(x, x);
    let e4 = ssub(FX_ONE as int, tdiv(t, 72));
    let e3 = ssub(FX_ONE as int, tdiv(fxm(t, e4), 42));
    let e2 = ssub(FX_ONE as int, tdiv(fxm(t, e3), 20));
    let e1 = ssub(FX_ONE as int, tdiv(fxm(t, e2), 6));
    let s = fxm(x, e1);
    if s > FX_ONE {
        FX_ONE as int
    } else if s < 0 {
        0
    } else {
        s
    }
}

/// Cosine on the first quadrant, from the Pythagorean identity.
pub open spec fn cos_q_s(x: int) -> int {
    sqrt_floor(FX_ONE * FX_ONE - sin_q_s(x) * sin_q_s(x))
}

/// Sine on the first quadrant.
pub fn sin_q(x: i64) -> (r: i64)
    requires
        0 <= x <= HALF_PI,
    ensures
        r as int == sin_q_s(x as int),
        0 <= r <= FX_ONE,
{
    let t: i64 = fx_mul(x, x);
    let e4: i64 = fx_sub(FX_ONE, tdiv_small(t, 72));
    let e3: i64 = fx_sub(FX_ONE, tdiv_small(fx_mul(t, e4), 42));
    let e2: i64 = fx_sub(FX_ONE, tdiv_small(fx_mul(t, e3), 20));
    let e1: i64 = fx_sub(FX_ONE, tdiv_small(fx_mul(t, e2), 6));
    let s: i64 = fx_mul(x, e1);
    if s > FX_ONE {
        FX_ONE
    } else if s < 0 {
        0
    } else {
        s
    }
}

/// Cosine on the first quadrant.  The result is tied to the sine by the
/// exact integer Pythagorean bounds.
pub fn cos_q(x: i64) -> (r: i64)
    requires
        0 <= x <= HALF_PI,
    ensures
        r as int == cos_q_s(x as int),
        0 <= r <= FX_ONE,
        r * r + sin_q_s(x as int) * sin_q_s(x as int) <= FX_ONE * FX_ONE,
        FX_ONE * FX_ONE < (r + 1) * (r + 1) + sin_q_s(x as int) * sin_q_s(x as int),
{
    let s: i64 = sin_q(x);
    proof {
        assert(0 <= (s as int) * (s as int) <= (FX_ONE as int) * (FX_ONE as int)) by (nonlinear_arith)
            requires
                0 <= s as int <= FX_ONE as int,
        ;
    }
    let d: i128 = (FX_ONE as i128) * (FX_ONE as i128) - (s as i128) * (s as i128);
    let c: i64 = isqrt_small(d as u128);
    proof {
        assert((c as int) * (c as int) <= d as int ==> c as int <= FX_ONE as int) by (nonlinear_arith)
            requires
                d as int <= (FX_ONE as int) * (FX_ONE as int),
                (c as int) >= 0,
        ;
    }
    c
}

/// Integer square root of a value no greater than FX_ONE^2.
fn isqrt_small(x: u128) -> (r: i64)
    requires
        x <= 1_000_000_000_000_000_000,
    ensures
        r as int == sqrt_floor(x as int),
        0 <= r <= FX_ONE,
        (r as int) * (r as int) <= x as int,
        (x as int) < (r as int + 1) * (r as int + 1),
{
    let s: u128 = sqrt_u128(x);
    proof {
        assert((s as int) * (s as int) <= x as int ==> s as int <= FX_ONE as int) by (nonlinear_arith)
            requires
                x as int <= 1_000_000_000_000_000_000,
                (s as int) >= 0,
        ;
    }
    s as i64
}

/// An angle folded into [0, TWO_PI), Euclidean.
pub open spec fn wrap_s(x: int) -> int {
    x % (TWO_PI as int)
}

/// Sine of any angle, by quadrant folding.
pub open spec fn sin_rad_s(x: int) -> int {
    let m = wrap_s(x);
    if m < HALF_PI {
        sin_q_s(m)
    } else if m < PI {
        sin_q_s(PI - m)
    } else if m < PI + HALF_PI {
        sneg(sin_q_s(m - PI))
    } else {
        sneg(sin_q_s(TWO_PI - m))
    }
}

/// Cosine of any angle, by quadrant folding.
pub open spec fn cos_rad_s(x: int) -> int {
    let m = wrap_s(x);
    if m < HALF_PI {
        cos_q_s(m)
    } else if m < PI {
        sneg(cos_q_s(PI - m))
    } else if m < PI + HALF_PI {
        sneg(cos_q_s(m - PI))
    } else {
        cos_q_s(TWO_PI - m)
    }
}

/// Fold an angle into [0, TWO_PI).
fn wrap_angle(x: i64) -> (r: i64)
    ensures
        r as int == wrap_s(x as int),
        0 <= r < TWO_PI,
{
    if x >= 0 {
        ((x as u64) % (TWO_PI as u64)) as i64
    } else {
        let m: i64 = (((-(x as i128)) as u128) % (TWO_PI as u128)) as i64;
        if m == 0 {
            proof {
                assert((x as int) % (TWO_PI as int) == 0) by (nonlinear_arith)
                    requires
                        (x as int) < 0,
                        (-(x as int)) % (TWO_PI as int) == 0,
                ;
            }
            0
        } else {
            proof {
                assert((x as int) % (TWO_PI as int) == TWO_PI - m) by (nonlinear_arith)
                    requires
                        (x as int) < 0,
                        m as int == (-(x as int)) % (TWO_PI as int),
                        0 < (m as int) < (TWO_PI as int),
                ;
            }
            TWO_PI - m
        }
    }
}

/// Sine of any fixed-point angle in radians.
pub fn sin_rad(x: i64) -> (r: i64)
    ensures
        r as int == sin_rad_s(x as int),
        -FX_ONE <= r <= FX_ONE,
{
    let m: i64 = wrap_angle(x);
    if m < HALF_PI {
        sin_q(m)
    } else if m < PI {
        sin_q(PI - m)
    } else if m < PI + HALF_PI {
        fx_neg(sin_q(m - PI))
    } else {
        fx_neg(sin_q(TWO_PI - m))
    }
}

/// Cosine of any fixed-point angle in radians.
pub fn cos_rad(x: i64) -> (r: i64)
    ensures
        r as int == cos_rad_s(x as int),
        -FX_ONE <= r <= FX_ONE,
{
    let m: i64 = wrap_angle(x);
    if m < HALF_PI {
        cos_q(m)
    } else if m < PI {
        fx_neg(cos_q(PI - m))
    } else if m < PI + HALF_PI {
        fx_neg(cos_q(m - PI))
    } else {
        cos_q(TWO_PI - m)
    }
}

/// Arctangent on [0, 1]: two half-angle reductions
/// (atan x = 2 atan (x / (1 + sqrt(1 + x^2)))) and then the Taylor form
/// y - y^3/3 + y^5/5, scaled back by 4 and clamped into [0, HALF_PI].
pub open spec fn atan_unit_s(x: int) -> int {
    let y1 = fxd(x, sadd(FX_ONE as int, sat64(sqrt_floor(FX_ONE * FX_ONE + x * x))));
    let y2 = fxd(y1, sadd(FX_ONE as int, sat64(sqrt_floor(FX_ONE * FX_ONE + y1 * y1))));
    let t = fxm(y2, y2);
    let e2 = ssub(FX_ONE as int, tdiv(fxm(t, 3 * FX_ONE), 5));
    let e1 = ssub(FX_ONE as int, tdiv(fxm(t, e2), 3));
    let p = sat64(4 * fxm(y2, e1));
    if p > HALF_PI {
        HALF_PI as int
    } else if p < 0 {
        0
    } else {
        p
    }
}

/// Arctangent on [0, 1].
pub fn atan_unit(x: i64) -> (r: i64)
    requires
        0 <= x <= FX_ONE,
    ensures
        r as int == atan_unit_s(x as int),
        0 <= r <= HALF_PI,
{
    let d1: i64 = fx_add(FX_ONE, norm2(FX_ONE, x));
    let y1: i64 = fx_div(x, d1);
    let d2: i64 = fx_add(FX_ONE, norm2(FX_ONE, y1));
    let y2: i64 = fx_div(y1, d2);
    let t: i64 = fx_mul(y2, y2);
    let e2: i64 = fx_sub(FX_ONE, tdiv_small(fx_mul(t, 3 * FX_ONE), 5));
    let e1: i64 = fx_sub(FX_ONE, tdiv_small(fx_mul(t, e2), 3));
    let p: i64 = fx_scale(fx_mul(y2, e1), 4);
    if p > HALF_PI {
        HALF_PI
    } else if p < 0 {
        0
    } else {
        p
    }
}

/// Arctangent of num / den for a non-negative numerator and a positive
/// denominator, via the complement identity above 1.
pub open spec fn atan_ratio_s(num: int, den: int) -> int {
    if num <= den {
        atan_unit_s(fxd(num, den))
    } else {
        ssub(HALF_PI as int, atan_unit_s(fxd(den, num)))
    }
}

/// Arctangent of a non-negative ratio.
pub fn atan_ratio(num: i64, den: i64) -> (r: i64)
    requires
        0 <= num,
        0 < den,
    ensures
        r as int == atan_ratio_s(num as int, den as int),
        0 <= r <= HALF_PI,
{
    if num <= den {
        proof {
            lemma_fxd_unit(num as int, den as int);
        }
        atan_unit(fx_div(num, den))
    } else {
        proof {
            lemma_fxd_unit(den as int, num as int);
        }
        fx_sub(HALF_PI, atan_unit(fx_div(den, num)))
    }
}

/// Radians to degrees.
pub open spec fn to_degrees_s(x: int) -> int {
    fxm(x, RAD_TO_DEG as int)
}

/// Radians to degrees.
pub fn to_degrees(x: i64) -> (r: i64)
    ensures
        r as int == to_degrees_s(x as int),
{
    fx_mul(x, RAD_TO_DEG)
}

/// Degrees to radians: x * PI / 180.
pub open spec fn to_radians_s(x: int) -> int {
    tdiv(fxm(x, PI as int), 180)
}

/// Degrees to radians.
pub fn to_radians(x: i64) -> (r: i64)
    ensures
        r as int == to_radians_s(x as int),
{
    tdiv_small(fx_mul(x, PI), 180)
}

} // verus!
