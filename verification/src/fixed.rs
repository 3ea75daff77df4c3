//! Fixed-point scalar arithmetic.
//!
//! Every scalar quantity of the calibration pipeline (pixel coordinates,
//! scene coordinates, angles in radians or degrees, matrix entries) is a
//! fixed-point number: an `i64` counting units of one billionth
//! (`FX_ONE` raw units represent the real value 1.0).
//!
//! Every operation computes its exact integer result in 128-bit
//! arithmetic, truncates the division toward zero where one occurs, and
//! clamps the outcome into `[-FX_LIMIT, FX_LIMIT]`.  The operations are
//! therefore total, and each one is specified exactly: the `ensures`
//! clause gives the returned raw value as a function of the argument raw
//! values.

use vstd::prelude::*;

verus! {

/// Raw units per 1.0.
pub const FX_ONE: i64 = 1_000_000_000;

/// One half, in raw units.
pub const FX_HALF: i64 = 500_000_000;

/// Largest magnitude any scalar may hold; all operations clamp into this
/// range, which keeps every intermediate 128-bit product representable.
pub const FX_LIMIT: i64 = 4_000_000_000_000_000_000;

/// Magnitude of an integer.
pub open spec fn iabs(x: int) -> int {
    if x < 0 {
        -x
    } else {
        x
    }
}

/// Clamp into the representable scalar range.
pub open spec fn sat64(x: int) -> int {
    if x > FX_LIMIT {
        FX_LIMIT as int
    } else if x < -(FX_LIMIT as int) {
        -(FX_LIMIT as int)
    } else {
        x
    }
}

/// Division truncated toward zero, as the machine division behaves.
pub open spec fn tdiv(a: int, b: int) -> int {
    let q = iabs(a) / iabs(b);
    if (a < 0) == (b < 0) {
        q
    } else {
        -q
    }
}

/// Fixed-point product: (a * b) / FX_ONE, truncated, clamped.
pub open spec fn fxm(a: int, b: int) -> int {
    sat64(tdiv(a * b, FX_ONE as int))
}

/// Fixed-point quotient: (a * FX_ONE) / b, truncated, clamped.
pub open spec fn fxd(a: int, b: int) -> int {
    sat64(tdiv(a * (FX_ONE as int), b))
}

/// Clamped sum.
pub open spec fn sadd(a: int, b: int) -> int {
    sat64(a + b)
}

/// Clamped difference.
pub open spec fn ssub(a: int, b: int) -> int {
    sat64(a - b)
}

/// Clamped negation.
pub open spec fn sneg(a: int) -> int {
    sat64(-a)
}

/// Clamped magnitude.
pub open spec fn sabs(a: int) -> int {
    sat64(iabs(a))
}

/// The non-negative integer square root: the greatest r with r * r <= n.
pub open spec fn sqrt_floor(n: int) -> int {
    choose|r: int| 0 <= r && #[trigger] (r * r) <= n && n < (r + 1) * (r + 1)
}

/// A witness pins `sqrt_floor` down: any r with r * r <= n < (r+1) * (r+1)
/// is the integer square root of n.
pub proof fn lemma_sqrt_floor(n: int, r: int)
    requires
        0 <= r,
        r * r <= n,
        n < (r + 1) * (r + 1),
    ensures
        sqrt_floor(n) == r,
{
    assert(exists|s: int| 0 <= s && #[trigger] (s * s) <= n && n < (s + 1) * (s + 1)) by {
        assert(0 <= r && r * r <= n && n < (r + 1) * (r + 1));
    }
    let q = sqrt_floor(n);
    assert(0 <= q && q * q <= n && n < (q + 1) * (q + 1));
    assert(q == r) by (nonlinear_arith)
        requires
            0 <= q,
            0 <= r,
            q * q <= n,
            n < (q + 1) * (q + 1),
            r * r <= n,
            n < (r + 1) * (r + 1),
    ;
}

/// Truncated division sandwiches the quotient: the divisor times the
/// quotient's magnitude does not exceed the dividend's magnitude, and
/// one more step of the divisor passes it.
pub proof fn lemma_tdiv_sandwich(a: int, b: int)
    requires
        b >= 1,
    ensures
        b * iabs(tdiv(a, b)) <= iabs(a),
        iabs(a) < b * (iabs(tdiv(a, b)) + 1),
{
    let q = iabs(a) / b;
    vstd::arithmetic::div_mod::lemma_fundamental_div_mod(iabs(a), b);
    vstd::arithmetic::div_mod::lemma_mod_bound(iabs(a), b);
    assert(q >= 0) by (nonlinear_arith)
        requires
            b >= 1,
            iabs(a) == b * q + iabs(a) % b,
            0 <= iabs(a) % b < b,
            iabs(a) >= 0,
    ;
    assert(iabs(a) < b * (q + 1)) by (nonlinear_arith)
        requires
            iabs(a) == b * q + iabs(a) % b,
            iabs(a) % b < b,
    ;
    assert(iabs(tdiv(a, b)) == q);
}

/// Every non-negative integer has an integer square root, and
/// `sqrt_floor` obeys its defining bounds on it.
pub proof fn lemma_sqrt_floor_nonneg(n: int)
    requires
        0 <= n,
    ensures
        0 <= sqrt_floor(n),
        sqrt_floor(n) * sqrt_floor(n) <= n,
        n < (sqrt_floor(n) + 1) * (sqrt_floor(n) + 1),
    decreases n,
{
    if n == 0 {
        lemma_sqrt_floor(0, 0);
    } else {
        lemma_sqrt_floor_nonneg(n - 1);
        let r = sqrt_floor(n - 1);
        if n < (r + 1) * (r + 1) {
            lemma_sqrt_floor(n, r);
        } else {
            assert(n == (r + 1) * (r + 1));
            assert(n < (r + 2) * (r + 2)) by (nonlinear_arith)
                requires
                    n == (r + 1) * (r + 1),
                    r >= 0,
            ;
            lemma_sqrt_floor(n, r + 1);
        }
    }
}

/// Clamp a 128-bit value into the scalar range.
fn clamp_i128(x: i128) -> (r: i64)
    ensures
        r as int == sat64(x as int),
{
    if x > FX_LIMIT as i128 {
        FX_LIMIT
    } else if x < -(FX_LIMIT as i128) {
        -FX_LIMIT
    } else {
        x as i64
    }
}

/// 128-bit division truncated toward zero.
fn tdiv128(a: i128, b: i128) -> (r: i128)
    requires
        b != 0,
        a > i128::MIN,
        b > i128::MIN,
    ensures
        r as int == tdiv(a as int, b as int),
        iabs(r as int) <= iabs(a as int),
{
    let ua: u128 = if a < 0 {
        (-a) as u128
    } else {
        a as u128
    };
    let ub: u128 = if b < 0 {
        (-b) as u128
    } else {
        b as u128
    };
    let q: u128 = ua / ub;
    proof {
        assert(ua as int == iabs(a as int));
        assert(ub as int == iabs(b as int));
        assert(q <= ua) by (nonlinear_arith)
            requires
                q == ua / ub,
                ub >= 1,
        ;
    }
    if (a < 0) != (b < 0) {
        -(q as i128)
    } else {
        q as i128
    }
}

/// Fixed-point multiplication.
pub fn fx_mul(a: i64, b: i64) -> (r: i64)
    ensures
        r as int == fxm(a as int, b as int),
{
    proof {
        assert(iabs((a as int) * (b as int)) <= 0x40000000000000000000000000000000) by (nonlinear_arith)
            requires
                -0x8000000000000000 <= a as int <= 0x7fffffffffffffff,
                -0x8000000000000000 <= b as int <= 0x7fffffffffffffff,
        ;
    }
    let p: i128 = (a as i128) * (b as i128);
    let q: i128 = tdiv128(p, FX_ONE as i128);
    clamp_i128(q)
}

/// Fixed-point division.
pub fn fx_div(a: i64, b: i64) -> (r: i64)
    requires
        b != 0,
    ensures
        r as int == fxd(a as int, b as int),
{
    proof {
        assert(iabs((a as int) * (FX_ONE as int)) < 0x40000000000000000000000000000000) by (nonlinear_arith)
            requires
                -0x8000000000000000 <= a as int <= 0x7fffffffffffffff,
        ;
    }
    let p: i128 = (a as i128) * (FX_ONE as i128);
    let q: i128 = tdiv128(p, b as i128);
    clamp_i128(q)
}

/// Clamped addition.
pub fn fx_add(a: i64, b: i64) -> (r: i64)
    ensures
        r as int == sadd(a as int, b as int),
{
    clamp_i128(a as i128 + b as i128)
}

/// Clamped subtraction.
pub fn fx_sub(a: i64, b: i64) -> (r: i64)
    ensures
        r as int == ssub(a as int, b as int),
{
    clamp_i128(a as i128 - b as i128)
}

/// Clamped negation.
pub fn fx_neg(a: i64) -> (r: i64)
    ensures
        r as int == sneg(a as int),
{
    clamp_i128(-(a as i128))
}

/// Clamped magnitude.
pub fn fx_abs(a: i64) -> (r: i64)
    ensures
        r as int == sabs(a as int),
{
    let m: i128 = if a < 0 {
        -(a as i128)
    } else {
        a as i128
    };
    clamp_i128(m)
}

/// The fixed-point value of a small integer.
pub fn fx_of_int(n: i64) -> (r: i64)
    ensures
        r as int == sat64(n * FX_ONE),
{
    proof {
        assert(iabs((n as int) * (FX_ONE as int)) < 0x40000000000000000000000000000000) by (nonlinear_arith)
            requires
                -0x8000000000000000 <= n as int <= 0x7fffffffffffffff,
        ;
    }
    clamp_i128((n as i128) * (FX_ONE as i128))
}

/// Truncated division of a scalar by a small positive constant.
pub fn tdiv_small(a: i64, b: i64) -> (r: i64)
    requires
        b > 0,
    ensures
        r as int == tdiv(a as int, b as int),
        iabs(r as int) <= iabs(a as int),
{
    let q: i128 = tdiv128(a as i128, b as i128);
    q as i64
}

/// Clamped product of a scalar with a plain integer factor.
pub fn fx_scale(a: i64, k: i64) -> (r: i64)
    ensures
        r as int == sat64(a * k),
{
    proof {
        assert(iabs((a as int) * (k as int)) <= 0x40000000000000000000000000000000) by (nonlinear_arith)
            requires
                -0x8000000000000000 <= a as int <= 0x7fffffffffffffff,
                -0x8000000000000000 <= k as int <= 0x7fffffffffffffff,
        ;
    }
    clamp_i128((a as i128) * (k as i128))
}

/// A product with a factor in [0, 1] keeps a non-negative scalar's bound.
pub proof fn lemma_fxm_unit(a: int, c: int)
    requires
        0 <= a <= FX_ONE,
        0 <= c,
    ensures
        0 <= fxm(c, a) <= sat64(c),
{
    assert(0 <= tdiv(c * a, FX_ONE as int) <= c) by (nonlinear_arith)
        requires
            0 <= a <= FX_ONE,
            0 <= c,
    ;
}

/// The quotient of a smaller non-negative scalar by a larger positive one
/// lies in [0, 1].
pub proof fn lemma_fxd_unit(a: int, b: int)
    requires
        0 <= a <= b,
        0 < b,
    ensures
        0 <= fxd(a, b) <= FX_ONE,
{
    assert(0 <= tdiv(a * (FX_ONE as int), b) <= FX_ONE) by (nonlinear_arith)
        requires
            0 <= a <= b,
            0 < b,
    ;
}

/// Truncated division never grows the magnitude.
pub proof fn lemma_tdiv_abs(a: int, b: int)
    requires
        b != 0,
    ensures
        iabs(tdiv(a, b)) <= iabs(a),
{
    assert(iabs(a) / iabs(b) <= iabs(a)) by (nonlinear_arith)
        requires
            b != 0,
            iabs(b) >= 1,
            iabs(a) >= 0,
    ;
}

/// Integer square root of a 128-bit value, by bisection.
pub fn sqrt_u128(x: u128) -> (r: u128)
    ensures
        r as int == sqrt_floor(x as int),
        (r as int) * (r as int) <= x as int,
        (x as int) < (r as int + 1) * (r as int + 1),
{
    let mut lo: u128 = 0;
    let mut hi: u128 = 0x1_0000_0000_0000_0000;
    proof {
        assert((hi as int) * (hi as int) > x as int) by (nonlinear_arith)
            requires
                hi as int == 0x1_0000_0000_0000_0000,
                x as int <= 0xffffffffffffffffffffffffffffffff,
        ;
    }
    while hi - lo > 1
        invariant
            lo < hi,
            hi <= 0x1_0000_0000_0000_0000,
            (lo as int) * (lo as int) <= x as int,
            (x as int) < (hi as int) * (hi as int),
        decreases hi - lo,
    {
        let mid: u128 = lo + (hi - lo) / 2;
        proof {
            assert(lo < mid < hi);
            assert((mid as int) * (mid as int) < 0x100000000000000000000000000000000) by (nonlinear_arith)
                requires
                    mid as int <= 0xffff_ffff_ffff_ffff,
            ;
        }
        if mid * mid <= x {
            lo = mid;
        } else {
            hi = mid;
        }
    }
    proof {
        lemma_sqrt_floor(x as int, lo as int);
    }
    lo
}

/// Integer square root of the exact sum of two squares:
/// the raw length of the 2-vector (x, y).
pub fn norm2(x: i64, y: i64) -> (r: i64)
    ensures
        r as int == sat64(sqrt_floor(x * x + y * y)),
        0 <= r as int <= FX_LIMIT,
{
    proof {
        assert(0 <= (x as int) * (x as int) <= 0x40000000000000000000000000000000) by (nonlinear_arith)
            requires
                -0x8000000000000000 <= x as int <= 0x7fffffffffffffff,
        ;
        assert(0 <= (y as int) * (y as int) <= 0x40000000000000000000000000000000) by (nonlinear_arith)
            requires
                -0x8000000000000000 <= y as int <= 0x7fffffffffffffff,
        ;
    }
    let ux: u128 = ((x as i128) * (x as i128)) as u128;
    let uy: u128 = ((y as i128) * (y as i128)) as u128;
    let s: u128 = sqrt_u128(ux + uy);
    proof {
        lemma_sqrt_nonneg_clamp(ux as int + uy as int, s as int);
    }
    if s > FX_LIMIT as u128 {
        FX_LIMIT
    } else {
        s as i64
    }
}

/// Integer square root of the exact sum of three squares:
/// the raw length of the 3-vector (x, y, z).
pub fn norm3(x: i64, y: i64, z: i64) -> (r: i64)
    ensures
        r as int == sat64(sqrt_floor(x * x + y * y + z * z)),
        0 <= r as int <= FX_LIMIT,
{
    proof {
        assert(0 <= (x as int) * (x as int) <= 0x40000000000000000000000000000000) by (nonlinear_arith)
            requires
                -0x8000000000000000 <= x as int <= 0x7fffffffffffffff,
        ;
        assert(0 <= (y as int) * (y as int) <= 0x40000000000000000000000000000000) by (nonlinear_arith)
            requires
                -0x8000000000000000 <= y as int <= 0x7fffffffffffffff,
        ;
        assert(0 <= (z as int) * (z as int) <= 0x40000000000000000000000000000000) by (nonlinear_arith)
            requires
                -0x8000000000000000 <= z as int <= 0x7fffffffffffffff,
        ;
    }
    let ux: u128 = ((x as i128) * (x as i128)) as u128;
    let uy: u128 = ((y as i128) * (y as i128)) as u128;
    let uz: u128 = ((z as i128) * (z as i128)) as u128;
    let s: u128 = sqrt_u128(ux + uy + uz);
    proof {
        lemma_sqrt_nonneg_clamp(ux as int + uy as int + uz as int, s as int);
    }
    if s > FX_LIMIT as u128 {
        FX_LIMIT
    } else {
        s as i64
    }
}

/// The clamp of a non-negative square root stays its `sat64` image.
proof fn lemma_sqrt_nonneg_clamp(n: int, s: int)
    requires
        s == sqrt_floor(n),
        0 <= s,
    ensures
        s > FX_LIMIT ==> sat64(s) == FX_LIMIT as int,
        s <= FX_LIMIT ==> sat64(s) == s,
{
}

/// Square root of a fixed-point value: raw result of the real square
/// root of a / FX_ONE, never large enough to clamp.
pub fn fx_sqrt(a: i64) -> (r: i64)
    requires
        0 <= a,
    ensures
        r as int == sqrt_floor(a * FX_ONE),
        0 <= r,
{
    proof {
        assert(0 <= (a as int) * (FX_ONE as int) < 0x40000000000000000000000000000000) by (nonlinear_arith)
            requires
                0 <= a as int <= 0x7fffffffffffffff,
        ;
    }
    let p: u128 = (a as u128) * (FX_ONE as u128);
    let s: u128 = sqrt_u128(p);
    proof {
        assert(s as int <= 0x7fffffffffffffff) by (nonlinear_arith)
            requires
                (s as int) * (s as int) <= p as int,
                (p as int) < 0x40000000000000000000000000000000,
                (s as int) >= 0,
        ;
    }
    s as i64
}

} // verus!
