//! Projection surfaces: the mapping from a camera-image point to a point
//! on the physical surface.
//!
//! The two surfaces share nothing beyond the signature, so they form a
//! closed sum type, [`SurfaceType`], with a single dispatch function.

use vstd::prelude::*;
use crate::fixed::{FX_ONE, FX_HALF, FX_LIMIT, fxm, fxd, sadd, ssub, sabs, iabs, sat64, tdiv,
    sqrt_floor, fx_mul, fx_div, fx_add, fx_sub, fx_abs, fx_of_int, lemma_fxm_unit,
    lemma_sqrt_floor, lemma_sqrt_floor_nonneg, lemma_tdiv_sandwich};
use crate::trig::{HALF_PI, sin_q_s, cos_q_s, sin_q, cos_q, to_radians_s, to_radians};
use crate::vec::{ImagePoint, P2s, Vec3, Vec4, V3s, V4s};
use crate::mat::{Mat4, M4s, look_at_ok, look_at_s, perspective_ok, perspective_s, look_at,
    perspective};
use crate::math::{un_project_ok, un_project_s, un_project};
use crate::errors::GeometryError;
use crate::PhysicalCamera;
use crate::camera_calibration::Calibration;

verus! {

/// Near clip plane used when un-projecting against the wall.
pub const WALL_NEAR: i64 = 100_000_000;

/// Far clip plane used when un-projecting against the wall.
pub const WALL_FAR: i64 = 1_000_000_000_000;

/// A hemispherical dome of the given fixed-point radius, photographed
/// through a fisheye camera at its center.
#[derive(Clone, Copy, Debug, PartialEq, Eq, Structural)]
pub struct HemisphericalDome {
    pub radius: i64,
}

/// A planar wall, fixed at z = 0 in world space.
#[derive(Clone, Copy, Debug, PartialEq, Eq, Structural)]
pub struct Wall {
}

/// The projection surface of a run: a closed sum over the two variants.
#[derive(Clone, Copy, Debug, PartialEq, Eq, Structural)]
pub enum SurfaceType {
    HemisphericalDome(HemisphericalDome),
    Wall(Wall),
}

/// Half the image extent along one axis, in fixed-point pixels.
pub open spec fn half_extent_s(n: int) -> int {
    fxm(sat64(n * FX_ONE), FX_HALF as int)
}

/// An image coordinate normalized relative to the image center into
/// roughly [-1, 1] (assuming a square fisheye frame filling the image).
pub open spec fn dome_norm_s(coord: int, extent: int) -> int {
    fxd(ssub(coord, half_extent_s(extent)), half_extent_s(extent))
}

/// The normalized radial distance of an image point from the image
/// center.
pub open spec fn dome_v_s(pt: P2s, w: int, h: int) -> int {
    let nx = dome_norm_s(pt.x, w);
    let ny = dome_norm_s(pt.y, h);
    sat64(sqrt_floor(nx * nx + ny * ny))
}

/// A point maps onto the dome exactly when its normalized radial
/// distance does not exceed 1.
pub open spec fn dome_ok(pt: P2s, w: int, h: int) -> bool {
    dome_v_s(pt, w, h) <= FX_ONE
}

/// The dome scene point: height from the angle away from the horizontal
/// plane, the rest from the direction of the point around the vertical
/// axis, everything scaled by the radius.
pub open spec fn dome_scene_s(radius: int, pt: P2s, w: int, h: int) -> V3s {
    let nx = dome_norm_s(pt.x, w);
    let ny = dome_norm_s(pt.y, h);
    let v = dome_v_s(pt, w, h);
    if v == 0 {
        V3s { x: 0, y: fxm(FX_ONE as int, radius), z: 0 }
    } else {
        let angle1 = ssub(HALF_PI as int, fxm(HALF_PI as int, v));
        let real_y = sin_q_s(angle1);
        let real_v = cos_q_s(angle1);
        let qx = fxd(nx, v);
        let qy = fxd(ny, v);
        V3s {
            x: fxm(fxm(qy, real_v), radius),
            y: fxm(real_y, radius),
            z: fxm(fxm(qx, real_v), radius),
        }
    }
}

impl HemisphericalDome {
    /// Map an image point onto the dome; fails exactly when the point
    /// lies outside the dome's circular image footprint (v > 1).
    pub fn camera_to_scene(
        &self,
        _camera: &PhysicalCamera,
        _calibration: &Calibration,
        pt: ImagePoint,
        image_width: i64,
        image_height: i64,
    ) -> (r: Result<Vec3, GeometryError>)
        requires
            image_width >= 1,
            image_height >= 1,
        ensures
            r is Ok <==> dome_ok(pt@, image_width as int, image_height as int),
            r matches Ok(p) ==> p@ == dome_scene_s(
                self.radius as int,
                pt@,
                image_width as int,
                image_height as int,
            ),
            r matches Err(e) ==> e == GeometryError::PointOutsideDome,
    {
        let half_w: i64 = fx_mul(fx_of_int(image_width), FX_HALF);
        let half_h: i64 = fx_mul(fx_of_int(image_height), FX_HALF);
        proof {
            lemma_half_extent_pos(image_width as int);
            lemma_half_extent_pos(image_height as int);
        }
        let nx: i64 = fx_div(fx_sub(pt.x, half_w), half_w);
        let ny: i64 = fx_div(fx_sub(pt.y, half_h), half_h);
        let v: i64 = crate::fixed::norm2(nx, ny);
        if v > FX_ONE {
            return Err(GeometryError::PointOutsideDome);
        }
        if v == 0 {
            return Ok(Vec3 { x: 0, y: fx_mul(FX_ONE, self.radius), z: 0 });
        }
        let angle1: i64 = fx_sub(HALF_PI, fx_mul(HALF_PI, v));
        proof {
            lemma_fxm_unit(v as int, HALF_PI as int);
        }
        let real_y: i64 = sin_q(angle1);
        let real_v: i64 = cos_q(angle1);
        let qx: i64 = fx_div(nx, v);
        let qy: i64 = fx_div(ny, v);
        Ok(
            Vec3 {
                x: fx_mul(fx_mul(qy, real_v), self.radius),
                y: fx_mul(real_y, self.radius),
                z: fx_mul(fx_mul(qx, real_v), self.radius),
            },
        )
    }
}

/// Half of a positive pixel extent is positive.
proof fn lemma_half_extent_pos(n: int)
    requires
        n >= 1,
    ensures
        half_extent_s(n) >= 1,
{
    assert(sat64(n * FX_ONE) >= FX_ONE as int) by (nonlinear_arith)
        requires
            n >= 1,
    ;
    assert(fxm(sat64(n * FX_ONE), FX_HALF as int) >= 1) by (nonlinear_arith)
        requires
            sat64(n * FX_ONE) >= FX_ONE as int,
    ;
}

/// The exact image-center point maps to (0, radius, 0): its normalized
/// coordinates are zero, so its radial distance is zero, and the dome
/// mapping places it at the pole, at the full radius.
pub proof fn lemma_dome_center(radius: int, pt: P2s, w: int, h: int)
    requires
        w >= 1,
        h >= 1,
        0 <= radius <= FX_LIMIT,
        pt.x == half_extent_s(w),
        pt.y == half_extent_s(h),
    ensures
        dome_ok(pt, w, h),
        dome_scene_s(radius, pt, w, h) == (V3s { x: 0, y: radius, z: 0 }),
{
    lemma_half_extent_pos(w);
    lemma_half_extent_pos(h);
    let hw = half_extent_s(w);
    let hh = half_extent_s(h);
    assert(ssub(pt.x, hw) == 0);
    assert(ssub(pt.y, hh) == 0);
    assert(tdiv(0 * (FX_ONE as int), hw) == 0) by (nonlinear_arith)
        requires
            hw >= 1,
    ;
    assert(tdiv(0 * (FX_ONE as int), hh) == 0) by (nonlinear_arith)
        requires
            hh >= 1,
    ;
    assert(dome_norm_s(pt.x, w) == 0);
    assert(dome_norm_s(pt.y, h) == 0);
    lemma_sqrt_floor(0, 0);
    assert(dome_v_s(pt, w, h) == 0);
    assert(tdiv((FX_ONE as int) * radius, FX_ONE as int) == radius) by (nonlinear_arith)
        requires
            0 <= radius,
    ;
    assert(fxm(FX_ONE as int, radius) == radius);
}

/// A point at normalized radial distance exactly 1 maps to the dome's
/// rim: the angle away from the horizontal plane is zero, so the scene
/// point's height is exactly zero.
pub proof fn lemma_dome_rim(radius: int, pt: P2s, w: int, h: int)
    requires
        w >= 1,
        h >= 1,
        dome_v_s(pt, w, h) == FX_ONE,
    ensures
        dome_ok(pt, w, h),
        dome_scene_s(radius, pt, w, h).y == 0,
{
    assert(tdiv((HALF_PI as int) * (FX_ONE as int), FX_ONE as int) == HALF_PI as int)
        by (nonlinear_arith);
    assert(fxm(HALF_PI as int, FX_ONE as int) == HALF_PI as int);
    let a1 = ssub(HALF_PI as int, HALF_PI as int);
    assert(a1 == 0);
    assert(tdiv(0, FX_ONE as int) == 0) by (nonlinear_arith);
    assert(fxm(0, 0) == 0);
    assert(tdiv(0, 72) == 0) by (nonlinear_arith);
    assert(tdiv(0, 42) == 0) by (nonlinear_arith);
    assert(tdiv(0, 20) == 0) by (nonlinear_arith);
    assert(tdiv(0, 6) == 0) by (nonlinear_arith);
    assert(sin_q_s(0) == 0);
    assert(tdiv(0 * radius, FX_ONE as int) == 0) by (nonlinear_arith);
    assert(fxm(sin_q_s(a1), radius) == 0);
}

/// The dome's height and lateral extent obey the Pythagorean identity
/// within rounding: for any angle in the first quadrant, the squares of
/// the sine and of the derived cosine sum to the squared unit, short by
/// less than the rounding of one square root step.
pub proof fn lemma_dome_height_identity(a1: int)
    requires
        0 <= a1 <= HALF_PI,
    ensures
        sin_q_s(a1) * sin_q_s(a1) + cos_q_s(a1) * cos_q_s(a1) <= FX_ONE * FX_ONE,
        FX_ONE * FX_ONE < sin_q_s(a1) * sin_q_s(a1) + (cos_q_s(a1) + 1) * (cos_q_s(a1) + 1),
{
    let s = sin_q_s(a1);
    assert(0 <= s <= FX_ONE);
    assert(0 <= s * s <= (FX_ONE as int) * (FX_ONE as int)) by (nonlinear_arith)
        requires
            0 <= s <= FX_ONE as int,
    ;
    let n = FX_ONE * FX_ONE - s * s;
    lemma_sqrt_floor_nonneg(n);
}

/// Every valid dome point lies on the sphere of the dome's radius,
/// within rounding: for any image point whose normalized radial distance
/// v is at least one hundredth (the immediate neighbourhood of the exact
/// center is excluded, where fixed-point quantization of the direction
/// dominates; the exact center itself is covered by `lemma_dome_center`),
/// the scene point's squared distance from the origin differs from the
/// squared radius by at most about two parts in ten million of it.
#[verifier::rlimit(20)]
pub proof fn lemma_dome_sphere(radius: int, pt: P2s, w: int, h: int)
    requires
        w >= 1,
        h >= 1,
        0 <= radius <= 1_000_000_000_000_000_000,
        10_000_000 <= dome_v_s(pt, w, h) <= FX_ONE,
    ensures
        ({
            let p = dome_scene_s(radius, pt, w, h);
            let sq = p.x * p.x + p.y * p.y + p.z * p.z;
            &&& sq * (FX_ONE as int) <= radius * radius * (FX_ONE as int) + 201 * (radius
                * radius)
            &&& sq * (FX_ONE as int) + 11 * (radius * radius) + 6 * radius * (FX_ONE as int) + 3 * (
            FX_ONE as int) >= radius * radius * (FX_ONE as int)
        }),
{
    let s_one: int = FX_ONE as int;
    let nx = dome_norm_s(pt.x, w);
    let ny = dome_norm_s(pt.y, h);
    let n2 = nx * nx + ny * ny;
    let v = dome_v_s(pt, w, h);
    assert(nx * nx >= 0 && ny * ny >= 0) by (nonlinear_arith);
    assert(iabs(nx) * iabs(nx) == nx * nx && iabs(ny) * iabs(ny) == ny * ny) by (nonlinear_arith);
    lemma_sqrt_floor_nonneg(n2);
    let sf = sqrt_floor(n2);
    assert(v == sat64(sf));
    assert(v == sf);
    assert(v * v <= n2 && n2 < (v + 1) * (v + 1));
    assert(iabs(nx) <= v && iabs(ny) <= v) by (nonlinear_arith)
        requires
            nx * nx >= 0,
            ny * ny >= 0,
            n2 == nx * nx + ny * ny,
            n2 < (v + 1) * (v + 1),
            iabs(nx) * iabs(nx) == nx * nx,
            iabs(ny) * iabs(ny) == ny * ny,
            iabs(nx) >= 0,
            iabs(ny) >= 0,
            v >= 0,
    ;
    // The normalized direction (qx, qy): exact truncations, within the unit.
    let tqx = tdiv(nx * s_one, v);
    let tqy = tdiv(ny * s_one, v);
    lemma_tdiv_sandwich(nx * s_one, v);
    lemma_tdiv_sandwich(ny * s_one, v);
    assert(iabs(nx * s_one) == iabs(nx) * s_one && iabs(ny * s_one) == iabs(ny) * s_one)
        by (nonlinear_arith)
        requires
            s_one >= 1,
    ;
    assert(iabs(tqx) <= s_one && iabs(tqy) <= s_one) by (nonlinear_arith)
        requires
            v * iabs(tqx) <= iabs(nx) * s_one,
            v * iabs(tqy) <= iabs(ny) * s_one,
            iabs(nx) <= v,
            iabs(ny) <= v,
            v >= 1,
            s_one >= 1,
            iabs(tqx) >= 0,
            iabs(tqy) >= 0,
    ;
    let qx = fxd(nx, v);
    let qy = fxd(ny, v);
    assert(qx == tqx && qy == tqy);
    assert(iabs(qx) * iabs(qx) == qx * qx && iabs(qy) * iabs(qy) == qy * qy) by (nonlinear_arith);
    let q2 = qx * qx + qy * qy;
    assert(q2 >= 0) by (nonlinear_arith)
        requires
            q2 == qx * qx + qy * qy,
    ;
    // v^2 (qx^2 + qy^2) is sandwiched by n2 * s_one^2, axis by axis.
    assert(v * v * (qx * qx) <= (nx * nx) * (s_one * s_one) && (nx * nx) * (s_one * s_one) < v * v
        * ((iabs(qx) + 1) * (iabs(qx) + 1))) by (nonlinear_arith)
        requires
            v * iabs(qx) <= iabs(nx) * s_one,
            iabs(nx) * s_one < v * (iabs(qx) + 1),
            v >= 1,
            s_one >= 1,
            iabs(qx) * iabs(qx) == qx * qx,
            iabs(nx) * iabs(nx) == nx * nx,
            iabs(qx) >= 0,
            iabs(nx) >= 0,
    ;
    assert(v * v * (qy * qy) <= (ny * ny) * (s_one * s_one) && (ny * ny) * (s_one * s_one) < v * v
        * ((iabs(qy) + 1) * (iabs(qy) + 1))) by (nonlinear_arith)
        requires
            v * iabs(qy) <= iabs(ny) * s_one,
            iabs(ny) * s_one < v * (iabs(qy) + 1),
            v >= 1,
            s_one >= 1,
            iabs(qy) * iabs(qy) == qy * qy,
            iabs(ny) * iabs(ny) == ny * ny,
            iabs(qy) >= 0,
            iabs(ny) >= 0,
    ;
    // Lower bound: the direction is no shorter than the unit, minus slack.
    let aqx = iabs(qx);
    let aqy = iabs(qy);
    assert(v * v * (s_one * s_one) <= n2 * (s_one * s_one)) by (nonlinear_arith)
        requires
            v * v <= n2,
            s_one >= 1,
    ;
    assert(n2 * (s_one * s_one) < v * v * ((aqx + 1) * (aqx + 1) + (aqy + 1) * (aqy + 1)))
        by (nonlinear_arith)
        requires
            (nx * nx) * (s_one * s_one) < v * v * ((aqx + 1) * (aqx + 1)),
            (ny * ny) * (s_one * s_one) < v * v * ((aqy + 1) * (aqy + 1)),
            n2 == nx * nx + ny * ny,
            aqx == iabs(qx),
            aqy == iabs(qy),
    ;
    assert(s_one * s_one < (aqx + 1) * (aqx + 1) + (aqy + 1) * (aqy + 1)) by (nonlinear_arith)
        requires
            v * v * (s_one * s_one) < v * v * ((aqx + 1) * (aqx + 1) + (aqy + 1) * (aqy + 1)),
            v >= 1,
    ;
    assert(q2 > s_one * s_one - 4 * s_one - 2) by (nonlinear_arith)
        requires
            s_one * s_one < (aqx + 1) * (aqx + 1) + (aqy + 1) * (aqy + 1),
            q2 == qx * qx + qy * qy,
            aqx * aqx == qx * qx,
            aqy * aqy == qy * qy,
            aqx <= s_one,
            aqy <= s_one,
            aqx >= 0,
            aqy >= 0,
    ;
    // Upper bound: with v at least one hundredth, the one-step slack of
    // the square root stays below 201 parts per unit.
    assert(v * v * q2 <= n2 * (s_one * s_one)) by (nonlinear_arith)
        requires
            v * v * (qx * qx) <= (nx * nx) * (s_one * s_one),
            v * v * (qy * qy) <= (ny * ny) * (s_one * s_one),
            q2 == qx * qx + qy * qy,
            n2 == nx * nx + ny * ny,
    ;
    assert(n2 * (s_one * s_one) < ((v + 1) * (v + 1)) * (s_one * s_one)) by (nonlinear_arith)
        requires
            n2 < (v + 1) * (v + 1),
            s_one >= 1,
    ;
    assert(q2 < s_one * s_one + 201 * s_one) by (nonlinear_arith)
        requires
            v * v * q2 <= n2 * (s_one * s_one),
            n2 * (s_one * s_one) < ((v + 1) * (v + 1)) * (s_one * s_one),
            10_000_000 <= v <= s_one,
            s_one == 1_000_000_000,
            q2 >= 0,
    ;
    // The height s and lateral extent c of the unit dome point.
    lemma_fxm_unit(v, HALF_PI as int);
    let a1 = ssub(HALF_PI as int, fxm(HALF_PI as int, v));
    assert(0 <= a1 <= HALF_PI);
    let s = sin_q_s(a1);
    assert(0 <= s <= s_one);
    assert(s * s <= s_one * s_one && s * s >= 0) by (nonlinear_arith)
        requires
            0 <= s <= s_one,
    ;
    lemma_sqrt_floor_nonneg(s_one * s_one - s * s);
    let c = cos_q_s(a1);
    assert(c >= 0 && c * c <= s_one * s_one - s * s && s_one * s_one - s * s < (c + 1) * (c + 1));
    assert(c <= s_one) by (nonlinear_arith)
        requires
            c * c <= s_one * s_one - s * s,
            s * s >= 0,
            c >= 0,
            s_one >= 1,
    ;
    assert(c * c >= 0) by (nonlinear_arith);
    // The lateral components (ux, uz): exact truncations, within the unit.
    let tux = tdiv(qy * c, s_one);
    let tuz = tdiv(qx * c, s_one);
    lemma_tdiv_sandwich(qy * c, s_one);
    lemma_tdiv_sandwich(qx * c, s_one);
    assert(iabs(qy * c) == iabs(qy) * c && iabs(qx * c) == iabs(qx) * c) by (nonlinear_arith)
        requires
            c >= 0,
    ;
    assert(iabs(tux) <= s_one && iabs(tuz) <= s_one) by (nonlinear_arith)
        requires
            s_one * iabs(tux) <= iabs(qy) * c,
            s_one * iabs(tuz) <= iabs(qx) * c,
            iabs(qy) <= s_one,
            iabs(qx) <= s_one,
            c <= s_one,
            s_one >= 1,
            iabs(tux) >= 0,
            iabs(tuz) >= 0,
            c >= 0,
            iabs(qx) >= 0,
            iabs(qy) >= 0,
    ;
    let ux = fxm(qy, c);
    let uz = fxm(qx, c);
    assert(ux == tux && uz == tuz);
    assert(iabs(ux) * iabs(ux) == ux * ux && iabs(uz) * iabs(uz) == uz * uz) by (nonlinear_arith);
    // s_one^2 (ux^2 + uz^2) is sandwiched by c^2 (qx^2 + qy^2).
    assert((s_one * s_one) * (ux * ux) <= (qy * qy) * (c * c) && (qy * qy) * (c * c) < (s_one
        * s_one) * ((iabs(ux) + 1) * (iabs(ux) + 1))) by (nonlinear_arith)
        requires
            s_one * iabs(ux) <= iabs(qy) * c,
            iabs(qy) * c < s_one * (iabs(ux) + 1),
            s_one >= 1,
            c >= 0,
            iabs(ux) * iabs(ux) == ux * ux,
            iabs(qy) * iabs(qy) == qy * qy,
            iabs(ux) >= 0,
            iabs(qy) >= 0,
    ;
    assert((s_one * s_one) * (uz * uz) <= (qx * qx) * (c * c) && (qx * qx) * (c * c) < (s_one
        * s_one) * ((iabs(uz) + 1) * (iabs(uz) + 1))) by (nonlinear_arith)
        requires
            s_one * iabs(uz) <= iabs(qx) * c,
            iabs(qx) * c < s_one * (iabs(uz) + 1),
            s_one >= 1,
            c >= 0,
            iabs(uz) * iabs(uz) == uz * uz,
            iabs(qx) * iabs(qx) == qx * qx,
            iabs(uz) >= 0,
            iabs(qx) >= 0,
    ;
    let b2 = s * s + ux * ux + uz * uz;
    // Upper bound on the unit point squared length.
    assert((c * c) * q2 <= (s_one * s_one - s * s) * (s_one * s_one + 201 * s_one))
        by (nonlinear_arith)
        requires
            c * c <= s_one * s_one - s * s,
            q2 < s_one * s_one + 201 * s_one,
            c * c >= 0,
            q2 >= 0,
            s_one * s_one - s * s >= 0,
    ;
    assert(b2 * (s_one * s_one) <= s_one * s_one * s_one * s_one + 201 * (s_one * s_one * s_one))
        by (nonlinear_arith)
        requires
            b2 == s * s + ux * ux + uz * uz,
            (s_one * s_one) * (ux * ux) <= (qy * qy) * (c * c),
            (s_one * s_one) * (uz * uz) <= (qx * qx) * (c * c),
            (c * c) * q2 <= (s_one * s_one - s * s) * (s_one * s_one + 201 * s_one),
            q2 == qx * qx + qy * qy,
            s * s >= 0,
            s_one >= 1,
    ;
    // Lower bound on the unit point squared length.
    assert((c * c) * q2 >= (c * c) * (s_one * s_one - 4 * s_one - 2)) by (nonlinear_arith)
        requires
            q2 > s_one * s_one - 4 * s_one - 2,
            c * c >= 0,
    ;
    assert((c * c) * (s_one * s_one - 4 * s_one - 2) >= (s_one * s_one - s * s - 2 * s_one - 1) * (
    s_one * s_one - 4 * s_one - 2)) by (nonlinear_arith)
        requires
            s_one * s_one - s * s < (c + 1) * (c + 1),
            c >= 0,
            c <= s_one,
            s_one == 1_000_000_000,
    ;
    assert(b2 * (s_one * s_one) >= s_one * s_one * s_one * s_one - 11 * (s_one * s_one * s_one))
        by (nonlinear_arith)
        requires
            b2 == s * s + ux * ux + uz * uz,
            (qy * qy) * (c * c) < (s_one * s_one) * ((iabs(ux) + 1) * (iabs(ux) + 1)),
            (qx * qx) * (c * c) < (s_one * s_one) * ((iabs(uz) + 1) * (iabs(uz) + 1)),
            iabs(ux) * iabs(ux) == ux * ux,
            iabs(uz) * iabs(uz) == uz * uz,
            iabs(ux) <= s_one,
            iabs(uz) <= s_one,
            iabs(ux) >= 0,
            iabs(uz) >= 0,
            (c * c) * q2 >= (s_one * s_one - s * s - 2 * s_one - 1) * (s_one * s_one - 4 * s_one
                - 2),
            q2 == qx * qx + qy * qy,
            0 <= s <= s_one,
            s * s >= 0,
            c * c >= 0,
            s_one == 1_000_000_000,
    ;
    // Scale by the radius.
    let p = dome_scene_s(radius, pt, w, h);
    assert(v != 0);
    assert(p.x == fxm(ux, radius) && p.y == fxm(s, radius) && p.z == fxm(uz, radius));
    let tpx = tdiv(ux * radius, s_one);
    let tpy = tdiv(s * radius, s_one);
    let tpz = tdiv(uz * radius, s_one);
    lemma_tdiv_sandwich(ux * radius, s_one);
    lemma_tdiv_sandwich(s * radius, s_one);
    lemma_tdiv_sandwich(uz * radius, s_one);
    assert(iabs(ux * radius) == iabs(ux) * radius && iabs(s * radius) == s * radius && iabs(uz
        * radius) == iabs(uz) * radius) by (nonlinear_arith)
        requires
            radius >= 0,
            s >= 0,
    ;
    assert(iabs(tpx) <= radius && iabs(tpy) <= radius && iabs(tpz) <= radius) by (nonlinear_arith)
        requires
            s_one * iabs(tpx) <= iabs(ux) * radius,
            s_one * iabs(tpy) <= s * radius,
            s_one * iabs(tpz) <= iabs(uz) * radius,
            iabs(ux) <= s_one,
            0 <= s <= s_one,
            iabs(uz) <= s_one,
            radius >= 0,
            s_one >= 1,
            iabs(tpx) >= 0,
            iabs(tpy) >= 0,
            iabs(tpz) >= 0,
            iabs(ux) >= 0,
            iabs(uz) >= 0,
    ;
    assert(p.x == tpx && p.y == tpy && p.z == tpz);
    assert(iabs(p.x) * iabs(p.x) == p.x * p.x && iabs(p.y) * iabs(p.y) == p.y * p.y && iabs(p.z)
        * iabs(p.z) == p.z * p.z) by (nonlinear_arith);
    let sq = p.x * p.x + p.y * p.y + p.z * p.z;
    assert((s_one * s_one) * (p.x * p.x) <= (ux * ux) * (radius * radius) && (ux * ux) * (radius
        * radius) < (s_one * s_one) * ((iabs(p.x) + 1) * (iabs(p.x) + 1))) by (nonlinear_arith)
        requires
            s_one * iabs(p.x) <= iabs(ux) * radius,
            iabs(ux) * radius < s_one * (iabs(p.x) + 1),
            s_one >= 1,
            radius >= 0,
            iabs(p.x) * iabs(p.x) == p.x * p.x,
            iabs(ux) * iabs(ux) == ux * ux,
            iabs(p.x) >= 0,
            iabs(ux) >= 0,
    ;
    assert((s_one * s_one) * (p.y * p.y) <= (s * s) * (radius * radius) && (s * s) * (radius
        * radius) < (s_one * s_one) * ((iabs(p.y) + 1) * (iabs(p.y) + 1))) by (nonlinear_arith)
        requires
            s_one * iabs(p.y) <= s * radius,
            s * radius < s_one * (iabs(p.y) + 1),
            s_one >= 1,
            radius >= 0,
            s >= 0,
            iabs(p.y) * iabs(p.y) == p.y * p.y,
            iabs(p.y) >= 0,
    ;
    assert((s_one * s_one) * (p.z * p.z) <= (uz * uz) * (radius * radius) && (uz * uz) * (radius
        * radius) < (s_one * s_one) * ((iabs(p.z) + 1) * (iabs(p.z) + 1))) by (nonlinear_arith)
        requires
            s_one * iabs(p.z) <= iabs(uz) * radius,
            iabs(uz) * radius < s_one * (iabs(p.z) + 1),
            s_one >= 1,
            radius >= 0,
            iabs(p.z) * iabs(p.z) == p.z * p.z,
            iabs(uz) * iabs(uz) == uz * uz,
            iabs(p.z) >= 0,
            iabs(uz) >= 0,
    ;
    // Collapse to the stated bounds.
    assert(b2 <= s_one * s_one + 201 * s_one) by (nonlinear_arith)
        requires
            b2 * (s_one * s_one) <= s_one * s_one * s_one * s_one + 201 * (s_one * s_one * s_one),
            s_one >= 1,
    ;
    assert(b2 >= s_one * s_one - 11 * s_one) by (nonlinear_arith)
        requires
            b2 * (s_one * s_one) >= s_one * s_one * s_one * s_one - 11 * (s_one * s_one * s_one),
            s_one >= 1,
    ;
    assert((s_one * s_one) * sq <= (radius * radius) * b2) by (nonlinear_arith)
        requires
            (s_one * s_one) * (p.x * p.x) <= (ux * ux) * (radius * radius),
            (s_one * s_one) * (p.y * p.y) <= (s * s) * (radius * radius),
            (s_one * s_one) * (p.z * p.z) <= (uz * uz) * (radius * radius),
            sq == p.x * p.x + p.y * p.y + p.z * p.z,
            b2 == s * s + ux * ux + uz * uz,
    ;
    assert((radius * radius) * b2 <= (radius * radius) * (s_one * s_one + 201 * s_one))
        by (nonlinear_arith)
        requires
            b2 <= s_one * s_one + 201 * s_one,
            radius >= 0,
    ;
    assert(sq * s_one <= radius * radius * s_one + 201 * (radius * radius)) by (nonlinear_arith)
        requires
            (s_one * s_one) * sq <= (radius * radius) * (s_one * s_one + 201 * s_one),
            s_one >= 1,
    ;
    let apx = iabs(p.x);
    let apy = iabs(p.y);
    let apz = iabs(p.z);
    assert((radius * radius) * b2 == (s * s) * (radius * radius) + (ux * ux) * (radius * radius) + (
    uz * uz) * (radius * radius)) by (nonlinear_arith)
        requires
            b2 == s * s + ux * ux + uz * uz,
    ;
    assert((s * s) * (radius * radius) + (ux * ux) * (radius * radius) + (uz * uz) * (radius
        * radius) < (s_one * s_one) * ((apx + 1) * (apx + 1) + (apy + 1) * (apy + 1) + (apz + 1) * (
    apz + 1))) by (nonlinear_arith)
        requires
            (ux * ux) * (radius * radius) < (s_one * s_one) * ((apx + 1) * (apx + 1)),
            (s * s) * (radius * radius) < (s_one * s_one) * ((apy + 1) * (apy + 1)),
            (uz * uz) * (radius * radius) < (s_one * s_one) * ((apz + 1) * (apz + 1)),
            apx == iabs(p.x),
            apy == iabs(p.y),
            apz == iabs(p.z),
    ;
    assert((apx + 1) * (apx + 1) + (apy + 1) * (apy + 1) + (apz + 1) * (apz + 1) <= sq + 6 * radius
        + 3) by (nonlinear_arith)
        requires
            apx * apx == p.x * p.x,
            apy * apy == p.y * p.y,
            apz * apz == p.z * p.z,
            apx <= radius,
            apy <= radius,
            apz <= radius,
            apx >= 0,
            apy >= 0,
            apz >= 0,
            sq == p.x * p.x + p.y * p.y + p.z * p.z,
    ;
    assert((s_one * s_one) * ((apx + 1) * (apx + 1) + (apy + 1) * (apy + 1) + (apz + 1) * (apz + 1))
        <= (s_one * s_one) * (sq + 6 * radius + 3)) by (nonlinear_arith)
        requires
            (apx + 1) * (apx + 1) + (apy + 1) * (apy + 1) + (apz + 1) * (apz + 1) <= sq + 6 * radius
                + 3,
            s_one == 1_000_000_000,
    ;
    assert((radius * radius) * b2 < (s_one * s_one) * sq + (s_one * s_one) * (6 * radius + 3))
        by (nonlinear_arith)
        requires
            (radius * radius) * b2 == (s * s) * (radius * radius) + (ux * ux) * (radius * radius)
                + (uz * uz) * (radius * radius),
            (s * s) * (radius * radius) + (ux * ux) * (radius * radius) + (uz * uz) * (radius
                * radius) < (s_one * s_one) * ((apx + 1) * (apx + 1) + (apy + 1) * (apy + 1) + (apz
                + 1) * (apz + 1)),
            (s_one * s_one) * ((apx + 1) * (apx + 1) + (apy + 1) * (apy + 1) + (apz + 1) * (apz
                + 1)) <= (s_one * s_one) * (sq + 6 * radius + 3),
            s_one == 1_000_000_000,
    ;
    assert((radius * radius) * b2 >= (radius * radius) * (s_one * s_one - 11 * s_one))
        by (nonlinear_arith)
        requires
            b2 >= s_one * s_one - 11 * s_one,
            radius >= 0,
    ;
    assert(sq * s_one + 11 * (radius * radius) + 6 * radius * s_one + 3 * s_one >= radius * radius
        * s_one) by (nonlinear_arith)
        requires
            (radius * radius) * (s_one * s_one - 11 * s_one) < (s_one * s_one) * sq + (s_one
                * s_one) * (6 * radius + 3),
            s_one >= 1,
    ;
}

/// The perspective matrix through which a wall pixel is un-projected.
pub open spec fn wall_proj_s(fov: int, w: int, h: int) -> M4s {
    perspective_s(
        to_radians_s(fov),
        fxd(sat64(w * FX_ONE), sat64(h * FX_ONE)),
        WALL_NEAR as int,
        WALL_FAR as int,
    )
}

/// The window coordinate of a wall pixel: Y flipped to the viewport
/// convention, depth 1 selecting the far plane.
pub open spec fn wall_win_s(pt: P2s, h: int) -> V3s {
    V3s { x: pt.x, y: ssub(sat64(h * FX_ONE), pt.y), z: FX_ONE as int }
}

/// The viewport covering the full image.
pub open spec fn wall_viewport_s(w: int, h: int) -> V4s {
    V4s { x: 0, y: 0, z: sat64(w * FX_ONE), w: sat64(h * FX_ONE) }
}

/// The far-plane world point behind a wall pixel.
pub open spec fn wall_far_s(pos: V3s, dir: V3s, up: V3s, fov: int, pt: P2s, w: int, h: int) -> V3s {
    un_project_s(wall_win_s(pt, h), look_at_s(pos, dir, up), wall_proj_s(fov, w, h),
        wall_viewport_s(w, h))
}

/// The depth gap between the far point and the camera.
pub open spec fn wall_zmag_s(pos: V3s, dir: V3s, up: V3s, fov: int, pt: P2s, w: int, h: int) -> int {
    sabs(ssub(wall_far_s(pos, dir, up, fov, pt, w, h).z, pos.z))
}

/// The wall mapping succeeds: the camera basis exists, the frustum
/// exists, the un-projection is non-singular, and the viewing ray is not
/// parallel to the wall.
pub open spec fn wall_ok(pos: V3s, dir: V3s, up: V3s, fov: int, pt: P2s, w: int, h: int) -> bool {
    &&& look_at_ok(pos, dir, up)
    &&& perspective_ok(to_radians_s(fov), fxd(sat64(w * FX_ONE), sat64(h * FX_ONE)),
        WALL_NEAR as int, WALL_FAR as int)
    &&& un_project_ok(wall_win_s(pt, h), look_at_s(pos, dir, up), wall_proj_s(fov, w, h),
        wall_viewport_s(w, h))
    &&& wall_zmag_s(pos, dir, up, fov, pt, w, h) != 0
}

/// The wall scene point: the ray from the camera through the far point,
/// intersected with the plane z = 0.
pub open spec fn wall_scene_s(pos: V3s, dir: V3s, up: V3s, fov: int, pt: P2s, w: int, h: int) -> V3s {
    let far = wall_far_s(pos, dir, up, fov, pt, w, h);
    let zmag = wall_zmag_s(pos, dir, up, fov, pt, w, h);
    let za = sabs(pos.z);
    V3s {
        x: sadd(fxm(fxd(ssub(far.x, pos.x), zmag), za), pos.x),
        y: sadd(fxm(fxd(ssub(far.y, pos.y), zmag), za), pos.y),
        z: sadd(fxm(fxd(ssub(far.z, pos.z), zmag), za), pos.z),
    }
}

impl Wall {
    /// Map an image point onto the wall plane at z = 0 by un-projecting
    /// the pixel to the far plane and intersecting the camera ray with
    /// the plane; fails on a degenerate camera basis, a degenerate
    /// frustum, a singular un-projection, or a ray parallel to the wall.
    pub fn camera_to_scene(
        &self,
        camera: &PhysicalCamera,
        calibration: &Calibration,
        pt: ImagePoint,
        image_width: i64,
        image_height: i64,
    ) -> (r: Result<Vec3, GeometryError>)
        requires
            image_width >= 1,
            image_height >= 1,
        ensures
            r is Ok <==> wall_ok(
                camera.position@,
                camera.look_at@,
                camera.up_dir@,
                calibration.fov as int,
                pt@,
                image_width as int,
                image_height as int,
            ),
            r matches Ok(p) ==> p@ == wall_scene_s(
                camera.position@,
                camera.look_at@,
                camera.up_dir@,
                calibration.fov as int,
                pt@,
                image_width as int,
                image_height as int,
            ),
            r is Err ==> (r matches Err(e) && (e == GeometryError::DegenerateCamera || e
                == GeometryError::SingularProjection)),
    {
        let w_fx: i64 = fx_of_int(image_width);
        let h_fx: i64 = fx_of_int(image_height);
        proof {
            assert(sat64((image_width as int) * (FX_ONE as int)) >= FX_ONE as int)
                by (nonlinear_arith)
                requires
                    image_width as int >= 1,
            ;
            assert(sat64((image_height as int) * (FX_ONE as int)) >= FX_ONE as int)
                by (nonlinear_arith)
                requires
                    image_height as int >= 1,
            ;
        }
        let model: Mat4 = match look_at(&camera.position, &camera.look_at, &camera.up_dir) {
            Ok(m) => m,
            Err(e) => {
                return Err(e);
            },
        };
        let proj: Mat4 = match perspective(
            to_radians(calibration.fov),
            fx_div(w_fx, h_fx),
            WALL_NEAR,
            WALL_FAR,
        ) {
            Ok(m) => m,
            Err(e) => {
                return Err(e);
            },
        };
        let win: Vec3 = Vec3 { x: pt.x, y: fx_sub(h_fx, pt.y), z: FX_ONE };
        let viewport: Vec4 = Vec4 { x: 0, y: 0, z: w_fx, w: h_fx };
        let far: Vec3 = match un_project(&win, &model, &proj, &viewport) {
            Ok(p) => p,
            Err(e) => {
                return Err(e);
            },
        };
        let zmag: i64 = fx_abs(fx_sub(far.z, camera.position.z));
        if zmag == 0 {
            return Err(GeometryError::SingularProjection);
        }
        let za: i64 = fx_abs(camera.position.z);
        Ok(
            Vec3 {
                x: fx_add(fx_mul(fx_div(fx_sub(far.x, camera.position.x), zmag), za),
                    camera.position.x),
                y: fx_add(fx_mul(fx_div(fx_sub(far.y, camera.position.y), zmag), za),
                    camera.position.y),
                z: fx_add(fx_mul(fx_div(fx_sub(far.z, camera.position.z), zmag), za),
                    camera.position.z),
            },
        )
    }
}

/// Whether the surface mapping succeeds for the given point.
pub open spec fn camera_to_scene_ok(
    surface: SurfaceType,
    pos: V3s,
    dir: V3s,
    up: V3s,
    fov: int,
    pt: P2s,
    w: int,
    h: int,
) -> bool {
    match surface {
        SurfaceType::HemisphericalDome(_) => dome_ok(pt, w, h),
        SurfaceType::Wall(_) => wall_ok(pos, dir, up, fov, pt, w, h),
    }
}

/// The scene point of the given surface.
pub open spec fn camera_to_scene_s(
    surface: SurfaceType,
    pos: V3s,
    dir: V3s,
    up: V3s,
    fov: int,
    pt: P2s,
    w: int,
    h: int,
) -> V3s {
    match surface {
        SurfaceType::HemisphericalDome(d) => dome_scene_s(d.radius as int, pt, w, h),
        SurfaceType::Wall(_) => wall_scene_s(pos, dir, up, fov, pt, w, h),
    }
}

/// Convert a point in the camera image to a point on the projected-upon
/// 3D surface.
pub fn camera_to_scene(
    surface: &SurfaceType,
    camera: &PhysicalCamera,
    pt: ImagePoint,
    image_width: i64,
    image_height: i64,
) -> (r: Result<Vec3, GeometryError>)
    requires
        image_width >= 1,
        image_height >= 1,
    ensures
        r is Ok <==> camera_to_scene_ok(
            *surface,
            camera.position@,
            camera.look_at@,
            camera.up_dir@,
            camera.calibration.fov as int,
            pt@,
            image_width as int,
            image_height as int,
        ),
        r matches Ok(p) ==> p@ == camera_to_scene_s(
            *surface,
            camera.position@,
            camera.look_at@,
            camera.up_dir@,
            camera.calibration.fov as int,
            pt@,
            image_width as int,
            image_height as int,
        ),
{
    match surface {
        SurfaceType::HemisphericalDome(d) => d.camera_to_scene(
            camera,
            &camera.calibration,
            pt,
            image_width,
            image_height,
        ),
        SurfaceType::Wall(wl) => wl.camera_to_scene(
            camera,
            &camera.calibration,
            pt,
            image_width,
            image_height,
        ),
    }
}

} // verus!
