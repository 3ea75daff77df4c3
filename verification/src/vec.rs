//! Fixed-point 2-, 3- and 4-component vectors.
//!
//! Each executable vector type views to a ghost counterpart whose
//! components are unbounded integers, and every operation is specified
//! exactly against that view through the clamped scalar arithmetic of
//! [`crate::fixed`].

use vstd::prelude::*;
use crate::fixed::{fxm, fxd, sadd, ssub, sneg, sat64, sqrt_floor, fx_mul, fx_div, fx_add, fx_sub,
    fx_neg, norm3, FX_LIMIT};

verus! {

/// A detected pattern point, in fixed-point pixel coordinates.
#[derive(Clone, Copy, Debug, PartialEq, Eq, Structural)]
pub struct ImagePoint {
    pub x: i64,
    pub y: i64,
}

/// Ghost image of an [`ImagePoint`].
pub ghost struct P2s {
    pub x: int,
    pub y: int,
}

impl View for ImagePoint {
    type V = P2s;

    open spec fn view(&self) -> P2s {
        P2s { x: self.x as int, y: self.y as int }
    }
}

/// A fixed-point 3-vector: a scene point or a direction.
#[derive(Clone, Copy, Debug, PartialEq, Eq, Structural)]
pub struct Vec3 {
    pub x: i64,
    pub y: i64,
    pub z: i64,
}

/// Ghost image of a [`Vec3`].
pub ghost struct V3s {
    pub x: int,
    pub y: int,
    pub z: int,
}

impl View for Vec3 {
    type V = V3s;

    open spec fn view(&self) -> V3s {
        V3s { x: self.x as int, y: self.y as int, z: self.z as int }
    }
}

/// A fixed-point homogeneous 4-vector.
#[derive(Clone, Copy, Debug, PartialEq, Eq, Structural)]
pub struct Vec4 {
    pub x: i64,
    pub y: i64,
    pub z: i64,
    pub w: i64,
}

/// Ghost image of a [`Vec4`].
pub ghost struct V4s {
    pub x: int,
    pub y: int,
    pub z: int,
    pub w: int,
}

impl View for Vec4 {
    type V = V4s;

    open spec fn view(&self) -> V4s {
        V4s { x: self.x as int, y: self.y as int, z: self.z as int, w: self.w as int }
    }
}

/// Component-wise sum.
pub open spec fn v3_add_s(a: V3s, b: V3s) -> V3s {
    V3s { x: sadd(a.x, b.x), y: sadd(a.y, b.y), z: sadd(a.z, b.z) }
}

/// Component-wise difference.
pub open spec fn v3_sub_s(a: V3s, b: V3s) -> V3s {
    V3s { x: ssub(a.x, b.x), y: ssub(a.y, b.y), z: ssub(a.z, b.z) }
}

/// Scalar product of each component.
pub open spec fn v3_scale_s(a: V3s, k: int) -> V3s {
    V3s { x: fxm(a.x, k), y: fxm(a.y, k), z: fxm(a.z, k) }
}

/// Dot product.
pub open spec fn dot3_s(a: V3s, b: V3s) -> int {
    sadd(sadd(fxm(a.x, b.x), fxm(a.y, b.y)), fxm(a.z, b.z))
}

/// Cross product.
pub open spec fn cross_s(a: V3s, b: V3s) -> V3s {
    V3s {
        x: ssub(fxm(a.y, b.z), fxm(a.z, b.y)),
        y: ssub(fxm(a.z, b.x), fxm(a.x, b.z)),
        z: ssub(fxm(a.x, b.y), fxm(a.y, b.x)),
    }
}

/// Euclidean length: the integer square root of the exact sum of the
/// squared raw components.
pub open spec fn norm3_s(a: V3s) -> int {
    sat64(sqrt_floor(a.x * a.x + a.y * a.y + a.z * a.z))
}

/// The unit vector with a's direction, for a of non-zero length.
pub open spec fn normalize_s(a: V3s) -> V3s {
    V3s { x: fxd(a.x, norm3_s(a)), y: fxd(a.y, norm3_s(a)), z: fxd(a.z, norm3_s(a)) }
}

impl Vec3 {
    /// The zero vector.
    pub fn zero() -> (r: Vec3)
        ensures
            r@ == (V3s { x: 0, y: 0, z: 0 }),
    {
        Vec3 { x: 0, y: 0, z: 0 }
    }

    /// Component-wise sum.
    pub fn plus(&self, o: &Vec3) -> (r: Vec3)
        ensures
            r@ == v3_add_s(self@, o@),
    {
        Vec3 { x: fx_add(self.x, o.x), y: fx_add(self.y, o.y), z: fx_add(self.z, o.z) }
    }

    /// Component-wise difference.
    pub fn minus(&self, o: &Vec3) -> (r: Vec3)
        ensures
            r@ == v3_sub_s(self@, o@),
    {
        Vec3 { x: fx_sub(self.x, o.x), y: fx_sub(self.y, o.y), z: fx_sub(self.z, o.z) }
    }

    /// Scalar product.
    pub fn scaled(&self, k: i64) -> (r: Vec3)
        ensures
            r@ == v3_scale_s(self@, k as int),
    {
        Vec3 { x: fx_mul(self.x, k), y: fx_mul(self.y, k), z: fx_mul(self.z, k) }
    }

    /// Component-wise negation.
    pub fn negated(&self) -> (r: Vec3)
        ensures
            r@ == (V3s { x: sneg(self@.x), y: sneg(self@.y), z: sneg(self@.z) }),
    {
        Vec3 { x: fx_neg(self.x), y: fx_neg(self.y), z: fx_neg(self.z) }
    }

    /// Dot product.
    pub fn dot(&self, o: &Vec3) -> (r: i64)
        ensures
            r as int == dot3_s(self@, o@),
    {
        fx_add(fx_add(fx_mul(self.x, o.x), fx_mul(self.y, o.y)), fx_mul(self.z, o.z))
    }

    /// Cross product.
    pub fn cross(&self, o: &Vec3) -> (r: Vec3)
        ensures
            r@ == cross_s(self@, o@),
    {
        Vec3 {
            x: fx_sub(fx_mul(self.y, o.z), fx_mul(self.z, o.y)),
            y: fx_sub(fx_mul(self.z, o.x), fx_mul(self.x, o.z)),
            z: fx_sub(fx_mul(self.x, o.y), fx_mul(self.y, o.x)),
        }
    }

    /// Euclidean length.
    pub fn norm(&self) -> (r: i64)
        ensures
            r as int == norm3_s(self@),
            0 <= r <= FX_LIMIT,
    {
        norm3(self.x, self.y, self.z)
    }

    /// The unit vector with this direction; `None` when the length is 0.
    pub fn normalized(&self) -> (r: Option<Vec3>)
        ensures
            r is Some <==> norm3_s(self@) != 0,
            r is Some ==> r->0@ == normalize_s(self@),
    {
        let n: i64 = norm3(self.x, self.y, self.z);
        if n == 0 {
            None
        } else {
            Some(Vec3 { x: fx_div(self.x, n), y: fx_div(self.y, n), z: fx_div(self.z, n) })
        }
    }

    /// The homogeneous extension (x, y, z, w).
    pub fn extend(&self, w: i64) -> (r: Vec4)
        ensures
            r@ == (V4s { x: self@.x, y: self@.y, z: self@.z, w: w as int }),
    {
        Vec4 { x: self.x, y: self.y, z: self.z, w }
    }
}

impl Vec4 {
    /// The first three components.
    pub fn truncate(&self) -> (r: Vec3)
        ensures
            r@ == (V3s { x: self@.x, y: self@.y, z: self@.z }),
    {
        Vec3 { x: self.x, y: self.y, z: self.z }
    }
}

/// Scalar product of each component.
pub open spec fn v4_scale_s(a: V4s, k: int) -> V4s {
    V4s { x: fxm(a.x, k), y: fxm(a.y, k), z: fxm(a.z, k), w: fxm(a.w, k) }
}

/// Component-wise sum.
pub open spec fn v4_add_s(a: V4s, b: V4s) -> V4s {
    V4s { x: sadd(a.x, b.x), y: sadd(a.y, b.y), z: sadd(a.z, b.z), w: sadd(a.w, b.w) }
}

/// Scalar product.
pub fn v4_scale(a: &Vec4, k: i64) -> (r: Vec4)
    ensures
        r@ == v4_scale_s(a@, k as int),
{
    Vec4 { x: fx_mul(a.x, k), y: fx_mul(a.y, k), z: fx_mul(a.z, k), w: fx_mul(a.w, k) }
}

/// Component-wise sum.
pub fn v4_add(a: &Vec4, b: &Vec4) -> (r: Vec4)
    ensures
        r@ == v4_add_s(a@, b@),
{
    Vec4 { x: fx_add(a.x, b.x), y: fx_add(a.y, b.y), z: fx_add(a.z, b.z), w: fx_add(a.w, b.w) }
}

} // verus!
