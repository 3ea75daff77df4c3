//! Fixed-point 3x3 and 4x4 matrices, stored by columns as the graphics
//! conventions expect, with the view matrix (`look_at`), the symmetric
//! perspective frustum, the general 4x4 inverse and the transpose.

use vstd::prelude::*;
use crate::fixed::{FX_ONE, fxm, fxd, sadd, ssub, sneg, sat64, tdiv, fx_mul, fx_div, fx_add,
    fx_sub, fx_neg, fx_scale, tdiv_small};
use crate::trig::{sin_rad_s, cos_rad_s, sin_rad, cos_rad};
use crate::vec::{Vec3, Vec4, V3s, V4s, v3_sub_s, cross_s, dot3_s, norm3_s, normalize_s,
    v4_scale_s, v4_add_s, v4_scale, v4_add};
use crate::errors::GeometryError;

verus! {

/// A fixed-point 3x3 matrix, stored by columns.
#[derive(Clone, Copy, Debug, PartialEq, Eq, Structural)]
pub struct Mat3 {
    pub c0: Vec3,
    pub c1: Vec3,
    pub c2: Vec3,
}

/// Ghost image of a [`Mat3`].
pub ghost struct M3s {
    pub c0: V3s,
    pub c1: V3s,
    pub c2: V3s,
}

impl View for Mat3 {
    type V = M3s;

    open spec fn view(&self) -> M3s {
        M3s { c0: self.c0@, c1: self.c1@, c2: self.c2@ }
    }
}

/// A fixed-point 4x4 matrix, stored by columns.
#[derive(Clone, Copy, Debug, PartialEq, Eq, Structural)]
pub struct Mat4 {
    pub c0: Vec4,
    pub c1: Vec4,
    pub c2: Vec4,
    pub c3: Vec4,
}

/// Ghost image of a [`Mat4`].
pub ghost struct M4s {
    pub c0: V4s,
    pub c1: V4s,
    pub c2: V4s,
    pub c3: V4s,
}

impl View for Mat4 {
    type V = M4s;

    open spec fn view(&self) -> M4s {
        M4s { c0: self.c0@, c1: self.c1@, c2: self.c2@, c3: self.c3@ }
    }
}

/// Matrix-vector product: the columns combined by the vector's
/// components, pairwise.
pub open spec fn mul_v4_s(m: M4s, v: V4s) -> V4s {
    v4_add_s(
        v4_add_s(v4_scale_s(m.c0, v.x), v4_scale_s(m.c1, v.y)),
        v4_add_s(v4_scale_s(m.c2, v.z), v4_scale_s(m.c3, v.w)),
    )
}

/// Matrix product, column by column.
pub open spec fn mul_m4_s(a: M4s, b: M4s) -> M4s {
    M4s {
        c0: mul_v4_s(a, b.c0),
        c1: mul_v4_s(a, b.c1),
        c2: mul_v4_s(a, b.c2),
        c3: mul_v4_s(a, b.c3),
    }
}

/// The transposed matrix.
pub open spec fn transpose_s(m: M4s) -> M4s {
    M4s {
        c0: V4s { x: m.c0.x, y: m.c1.x, z: m.c2.x, w: m.c3.x },
        c1: V4s { x: m.c0.y, y: m.c1.y, z: m.c2.y, w: m.c3.y },
        c2: V4s { x: m.c0.z, y: m.c1.z, z: m.c2.z, w: m.c3.z },
        c3: V4s { x: m.c0.w, y: m.c1.w, z: m.c2.w, w: m.c3.w },
    }
}

/// The forward direction of a camera at `eye` looking at `center`.
pub open spec fn view_forward_s(eye: V3s, center: V3s) -> V3s {
    normalize_s(v3_sub_s(center, eye))
}

/// The sideways direction of the camera basis.
pub open spec fn view_side_s(eye: V3s, center: V3s, up: V3s) -> V3s {
    normalize_s(cross_s(view_forward_s(eye, center), up))
}

/// The camera basis exists: the viewing direction has non-zero length
/// and is not parallel to the up vector.
pub open spec fn look_at_ok(eye: V3s, center: V3s, up: V3s) -> bool {
    norm3_s(v3_sub_s(center, eye)) != 0 && norm3_s(
        cross_s(view_forward_s(eye, center), up),
    ) != 0
}

/// The right-handed view matrix of a camera at `eye` looking at
/// `center` with the given up direction.
pub open spec fn look_at_s(eye: V3s, center: V3s, up: V3s) -> M4s {
    let f = view_forward_s(eye, center);
    let s = view_side_s(eye, center, up);
    let u = cross_s(s, f);
    M4s {
        c0: V4s { x: s.x, y: u.x, z: sneg(f.x), w: 0 },
        c1: V4s { x: s.y, y: u.y, z: sneg(f.y), w: 0 },
        c2: V4s { x: s.z, y: u.z, z: sneg(f.z), w: 0 },
        c3: V4s {
            x: sneg(dot3_s(s, eye)),
            y: sneg(dot3_s(u, eye)),
            z: dot3_s(f, eye),
            w: FX_ONE as int,
        },
    }
}

/// Matrix-vector product.
pub fn mul_v4(m: &Mat4, v: &Vec4) -> (r: Vec4)
    ensures
        r@ == mul_v4_s(m@, v@),
{
    v4_add(
        &v4_add(&v4_scale(&m.c0, v.x), &v4_scale(&m.c1, v.y)),
        &v4_add(&v4_scale(&m.c2, v.z), &v4_scale(&m.c3, v.w)),
    )
}

/// Matrix product.
pub fn mul_m4(a: &Mat4, b: &Mat4) -> (r: Mat4)
    ensures
        r@ == mul_m4_s(a@, b@),
{
    Mat4 {
        c0: mul_v4(a, &b.c0),
        c1: mul_v4(a, &b.c1),
        c2: mul_v4(a, &b.c2),
        c3: mul_v4(a, &b.c3),
    }
}

/// The transposed matrix.
pub fn transpose(m: &Mat4) -> (r: Mat4)
    ensures
        r@ == transpose_s(m@),
{
    Mat4 {
        c0: Vec4 { x: m.c0.x, y: m.c1.x, z: m.c2.x, w: m.c3.x },
        c1: Vec4 { x: m.c0.y, y: m.c1.y, z: m.c2.y, w: m.c3.y },
        c2: Vec4 { x: m.c0.z, y: m.c1.z, z: m.c2.z, w: m.c3.z },
        c3: Vec4 { x: m.c0.w, y: m.c1.w, z: m.c2.w, w: m.c3.w },
    }
}

/// Build the right-handed view matrix; fails when the camera basis is
/// degenerate.
pub fn look_at(eye: &Vec3, center: &Vec3, up: &Vec3) -> (r: Result<Mat4, GeometryError>)
    ensures
        r is Ok <==> look_at_ok(eye@, center@, up@),
        r matches Ok(m) ==> m@ == look_at_s(eye@, center@, up@),
        r matches Err(e) ==> e == GeometryError::DegenerateCamera,
{
    let dir: Vec3 = center.minus(eye);
    let f: Vec3 = match dir.normalized() {
        Some(f) => f,
        None => {
            return Err(GeometryError::DegenerateCamera);
        },
    };
    let s: Vec3 = match f.cross(up).normalized() {
        Some(s) => s,
        None => {
            return Err(GeometryError::DegenerateCamera);
        },
    };
    let u: Vec3 = s.cross(&f);
    Ok(
        Mat4 {
            c0: Vec4 { x: s.x, y: u.x, z: fx_neg(f.x), w: 0 },
            c1: Vec4 { x: s.y, y: u.y, z: fx_neg(f.y), w: 0 },
            c2: Vec4 { x: s.z, y: u.z, z: fx_neg(f.z), w: 0 },
            c3: Vec4 {
                x: fx_neg(s.dot(eye)),
                y: fx_neg(u.dot(eye)),
                z: f.dot(eye),
                w: FX_ONE,
            },
        },
    )
}

/// The perspective parameters admit a frustum: the half field of view
/// has non-zero sine, the aspect ratio is non-zero and the clip planes
/// are distinct.
pub open spec fn perspective_ok(fovy: int, aspect: int, z_near: int, z_far: int) -> bool {
    sin_rad_s(tdiv(fovy, 2)) != 0 && aspect != 0 && ssub(z_near, z_far) != 0
}

/// The right-handed symmetric perspective frustum for a vertical field
/// of view `fovy` (radians), the given aspect ratio and clip planes.
pub open spec fn perspective_s(fovy: int, aspect: int, z_near: int, z_far: int) -> M4s {
    let half = tdiv(fovy, 2);
    let q = fxd(cos_rad_s(half), sin_rad_s(half));
    let a = fxd(q, aspect);
    let b = fxd(sadd(z_near, z_far), ssub(z_near, z_far));
    let c = fxd(sat64(2 * fxm(z_near, z_far)), ssub(z_near, z_far));
    M4s {
        c0: V4s { x: a, y: 0, z: 0, w: 0 },
        c1: V4s { x: 0, y: q, z: 0, w: 0 },
        c2: V4s { x: 0, y: 0, z: b, w: -(FX_ONE as int) },
        c3: V4s { x: 0, y: 0, z: c, w: 0 },
    }
}

/// Build the perspective matrix; fails when the parameters admit no
/// frustum.
pub fn perspective(fovy: i64, aspect: i64, z_near: i64, z_far: i64) -> (r: Result<
    Mat4,
    GeometryError,
>)
    ensures
        r is Ok <==> perspective_ok(fovy as int, aspect as int, z_near as int, z_far as int),
        r matches Ok(m) ==> m@ == perspective_s(
            fovy as int,
            aspect as int,
            z_near as int,
            z_far as int,
        ),
        r matches Err(e) ==> e == GeometryError::DegenerateCamera,
{
    let half: i64 = tdiv_small(fovy, 2);
    let s: i64 = sin_rad(half);
    let c: i64 = cos_rad(half);
    let dz: i64 = fx_sub(z_near, z_far);
    if s == 0 || aspect == 0 || dz == 0 {
        return Err(GeometryError::DegenerateCamera);
    }
    let q: i64 = fx_div(c, s);
    let a: i64 = fx_div(q, aspect);
    let b: i64 = fx_div(fx_add(z_near, z_far), dz);
    let cc: i64 = fx_div(fx_scale(fx_mul(z_near, z_far), 2), dz);
    Ok(
        Mat4 {
            c0: Vec4 { x: a, y: 0, z: 0, w: 0 },
            c1: Vec4 { x: 0, y: q, z: 0, w: 0 },
            c2: Vec4 { x: 0, y: 0, z: b, w: -FX_ONE },
            c3: Vec4 { x: 0, y: 0, z: cc, w: 0 },
        },
    )
}

/// A 2x2 determinant over fixed-point entries.
pub open spec fn det2_s(a: int, b: int, c: int, d: int) -> int {
    ssub(fxm(a, b), fxm(c, d))
}

/// The alternating three-term combination a*b - c*d + e*f.
pub open spec fn alt3_s(a: int, b: int, c: int, d: int, e: int, f: int) -> int {
    sadd(ssub(fxm(a, b), fxm(c, d)), fxm(e, f))
}

/// The determinant of a 4x4 matrix, by the six 2x2 minors of the top
/// two rows against the six of the bottom two.
pub open spec fn det4_s(m: M4s) -> int {
    let s0 = det2_s(m.c0.x, m.c1.y, m.c0.y, m.c1.x);
    let s1 = det2_s(m.c0.x, m.c2.y, m.c0.y, m.c2.x);
    let s2 = det2_s(m.c0.x, m.c3.y, m.c0.y, m.c3.x);
    let s3 = det2_s(m.c1.x, m.c2.y, m.c1.y, m.c2.x);
    let s4 = det2_s(m.c1.x, m.c3.y, m.c1.y, m.c3.x);
    let s5 = det2_s(m.c2.x, m.c3.y, m.c2.y, m.c3.x);
    let c5 = det2_s(m.c2.z, m.c3.w, m.c2.w, m.c3.z);
    let c4 = det2_s(m.c1.z, m.c3.w, m.c1.w, m.c3.z);
    let c3 = det2_s(m.c1.z, m.c2.w, m.c1.w, m.c2.z);
    let c2 = det2_s(m.c0.z, m.c3.w, m.c0.w, m.c3.z);
    let c1 = det2_s(m.c0.z, m.c2.w, m.c0.w, m.c2.z);
    let c0 = det2_s(m.c0.z, m.c1.w, m.c0.w, m.c1.z);
    sadd(
        sadd(ssub(fxm(s0, c5), fxm(s1, c4)), sadd(fxm(s2, c3), fxm(s3, c2))),
        ssub(fxm(s5, c0), fxm(s4, c1)),
    )
}

/// The inverse of a 4x4 matrix with non-zero determinant: the adjugate
/// divided by the determinant.
pub open spec fn inverse_s(m: M4s) -> M4s {
    let s0 = det2_s(m.c0.x, m.c1.y, m.c0.y, m.c1.x);
    let s1 = det2_s(m.c0.x, m.c2.y, m.c0.y, m.c2.x);
    let s2 = det2_s(m.c0.x, m.c3.y, m.c0.y, m.c3.x);
    let s3 = det2_s(m.c1.x, m.c2.y, m.c1.y, m.c2.x);
    let s4 = det2_s(m.c1.x, m.c3.y, m.c1.y, m.c3.x);
    let s5 = det2_s(m.c2.x, m.c3.y, m.c2.y, m.c3.x);
    let c5 = det2_s(m.c2.z, m.c3.w, m.c2.w, m.c3.z);
    let c4 = det2_s(m.c1.z, m.c3.w, m.c1.w, m.c3.z);
    let c3 = det2_s(m.c1.z, m.c2.w, m.c1.w, m.c2.z);
    let c2 = det2_s(m.c0.z, m.c3.w, m.c0.w, m.c3.z);
    let c1 = det2_s(m.c0.z, m.c2.w, m.c0.w, m.c2.z);
    let c0 = det2_s(m.c0.z, m.c1.w, m.c0.w, m.c1.z);
    let det = det4_s(m);
    M4s {
        c0: V4s {
            x: fxd(alt3_s(m.c1.y, c5, m.c2.y, c4, m.c3.y, c3), det),
            y: fxd(sneg(alt3_s(m.c0.y, c5, m.c2.y, c2, m.c3.y, c1)), det),
            z: fxd(alt3_s(m.c0.y, c4, m.c1.y, c2, m.c3.y, c0), det),
            w: fxd(sneg(alt3_s(m.c0.y, c3, m.c1.y, c1, m.c2.y, c0)), det),
        },
        c1: V4s {
            x: fxd(sneg(alt3_s(m.c1.x, c5, m.c2.x, c4, m.c3.x, c3)), det),
            y: fxd(alt3_s(m.c0.x, c5, m.c2.x, c2, m.c3.x, c1), det),
            z: fxd(sneg(alt3_s(m.c0.x, c4, m.c1.x, c2, m.c3.x, c0)), det),
            w: fxd(alt3_s(m.c0.x, c3, m.c1.x, c1, m.c2.x, c0), det),
        },
        c2: V4s {
            x: fxd(alt3_s(m.c1.w, s5, m.c2.w, s4, m.c3.w, s3), det),
            y: fxd(sneg(alt3_s(m.c0.w, s5, m.c2.w, s2, m.c3.w, s1)), det),
            z: fxd(alt3_s(m.c0.w, s4, m.c1.w, s2, m.c3.w, s0), det),
            w: fxd(sneg(alt3_s(m.c0.w, s3, m.c1.w, s1, m.c2.w, s0)), det),
        },
        c3: V4s {
            x: fxd(sneg(alt3_s(m.c1.z, s5, m.c2.z, s4, m.c3.z, s3)), det),
            y: fxd(alt3_s(m.c0.z, s5, m.c2.z, s2, m.c3.z, s1), det),
            z: fxd(sneg(alt3_s(m.c0.z, s4, m.c1.z, s2, m.c3.z, s0)), det),
            w: fxd(alt3_s(m.c0.z, s3, m.c1.z, s1, m.c2.z, s0), det),
        },
    }
}

/// The alternating three-term combination a*b - c*d + e*f.
fn alt3(a: i64, b: i64, c: i64, d: i64, e: i64, f: i64) -> (r: i64)
    ensures
        r as int == alt3_s(a as int, b as int, c as int, d as int, e as int, f as int),
{
    fx_add(fx_sub(fx_mul(a, b), fx_mul(c, d)), fx_mul(e, f))
}

/// Invert a 4x4 matrix; fails when the determinant is zero.
#[verifier::rlimit(60)]
pub fn inverse(m: &Mat4) -> (r: Result<Mat4, GeometryError>)
    ensures
        r is Ok <==> det4_s(m@) != 0,
        r matches Ok(i) ==> i@ == inverse_s(m@),
        r matches Err(e) ==> e == GeometryError::SingularProjection,
{
    let s0: i64 = fx_sub(fx_mul(m.c0.x, m.c1.y), fx_mul(m.c0.y, m.c1.x));
    let s1: i64 = fx_sub(fx_mul(m.c0.x, m.c2.y), fx_mul(m.c0.y, m.c2.x));
    let s2: i64 = fx_sub(fx_mul(m.c0.x, m.c3.y), fx_mul(m.c0.y, m.c3.x));
    let s3: i64 = fx_sub(fx_mul(m.c1.x, m.c2.y), fx_mul(m.c1.y, m.c2.x));
    let s4: i64 = fx_sub(fx_mul(m.c1.x, m.c3.y), fx_mul(m.c1.y, m.c3.x));
    let s5: i64 = fx_sub(fx_mul(m.c2.x, m.c3.y), fx_mul(m.c2.y, m.c3.x));
    let c5: i64 = fx_sub(fx_mul(m.c2.z, m.c3.w), fx_mul(m.c2.w, m.c3.z));
    let c4: i64 = fx_sub(fx_mul(m.c1.z, m.c3.w), fx_mul(m.c1.w, m.c3.z));
    let c3: i64 = fx_sub(fx_mul(m.c1.z, m.c2.w), fx_mul(m.c1.w, m.c2.z));
    let c2: i64 = fx_sub(fx_mul(m.c0.z, m.c3.w), fx_mul(m.c0.w, m.c3.z));
    let c1: i64 = fx_sub(fx_mul(m.c0.z, m.c2.w), fx_mul(m.c0.w, m.c2.z));
    let c0: i64 = fx_sub(fx_mul(m.c0.z, m.c1.w), fx_mul(m.c0.w, m.c1.z));
    let det: i64 = fx_add(
        fx_add(
            fx_sub(fx_mul(s0, c5), fx_mul(s1, c4)),
            fx_add(fx_mul(s2, c3), fx_mul(s3, c2)),
        ),
        fx_sub(fx_mul(s5, c0), fx_mul(s4, c1)),
    );
    if det == 0 {
        return Err(GeometryError::SingularProjection);
    }
    Ok(
        Mat4 {
            c0: Vec4 {
                x: fx_div(alt3(m.c1.y, c5, m.c2.y, c4, m.c3.y, c3), det),
                y: fx_div(fx_neg(alt3(m.c0.y, c5, m.c2.y, c2, m.c3.y, c1)), det),
                z: fx_div(alt3(m.c0.y, c4, m.c1.y, c2, m.c3.y, c0), det),
                w: fx_div(fx_neg(alt3(m.c0.y, c3, m.c1.y, c1, m.c2.y, c0)), det),
            },
            c1: Vec4 {
                x: fx_div(fx_neg(alt3(m.c1.x, c5, m.c2.x, c4, m.c3.x, c3)), det),
                y: fx_div(alt3(m.c0.x, c5, m.c2.x, c2, m.c3.x, c1), det),
                z: fx_div(fx_neg(alt3(m.c0.x, c4, m.c1.x, c2, m.c3.x, c0)), det),
                w: fx_div(alt3(m.c0.x, c3, m.c1.x, c1, m.c2.x, c0), det),
            },
            c2: Vec4 {
                x: fx_div(alt3(m.c1.w, s5, m.c2.w, s4, m.c3.w, s3), det),
                y: fx_div(fx_neg(alt3(m.c0.w, s5, m.c2.w, s2, m.c3.w, s1)), det),
                z: fx_div(alt3(m.c0.w, s4, m.c1.w, s2, m.c3.w, s0), det),
                w: fx_div(fx_neg(alt3(m.c0.w, s3, m.c1.w, s1, m.c2.w, s0)), det),
            },
            c3: Vec4 {
                x: fx_div(fx_neg(alt3(m.c1.z, s5, m.c2.z, s4, m.c3.z, s3)), det),
                y: fx_div(alt3(m.c0.z, s5, m.c2.z, s2, m.c3.z, s1), det),
                z: fx_div(fx_neg(alt3(m.c0.z, s4, m.c1.z, s2, m.c3.z, s0)), det),
                w: fx_div(alt3(m.c0.z, s3, m.c1.z, s1, m.c2.z, s0), det),
            },
        },
    )
}

/// The identity matrix.
pub open spec fn identity_s() -> M4s {
    M4s {
        c0: V4s { x: FX_ONE as int, y: 0, z: 0, w: 0 },
        c1: V4s { x: 0, y: FX_ONE as int, z: 0, w: 0 },
        c2: V4s { x: 0, y: 0, z: FX_ONE as int, w: 0 },
        c3: V4s { x: 0, y: 0, z: 0, w: FX_ONE as int },
    }
}

/// The identity matrix.
pub fn identity() -> (r: Mat4)
    ensures
        r@ == identity_s(),
{
    Mat4 {
        c0: Vec4 { x: FX_ONE, y: 0, z: 0, w: 0 },
        c1: Vec4 { x: 0, y: FX_ONE, z: 0, w: 0 },
        c2: Vec4 { x: 0, y: 0, z: FX_ONE, w: 0 },
        c3: Vec4 { x: 0, y: 0, z: 0, w: FX_ONE },
    }
}

} // verus!
