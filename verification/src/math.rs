//! Forward and inverse model-view-projection transforms.
//!
//! `project` carries a 3D point through a model and a projection matrix,
//! performs the homogeneous divide, remaps clip coordinates from
//! [-1, 1] to [0, 1] and scales into the viewport.  `un_project` is its
//! inverse: it normalizes a window coordinate into the viewport, maps
//! [0, 1] to [-1, 1] and applies the inverted combined matrix.  Both
//! fail exactly on a zero homogeneous weight (or, for `un_project`, a
//! singular combined matrix).

use vstd::prelude::*;
use crate::fixed::{FX_ONE, FX_HALF, fxm, fxd, sadd, ssub, sat64, fx_mul, fx_div, fx_add, fx_sub,
    fx_scale};
use crate::vec::{Vec3, Vec4, V3s, V4s};
use crate::mat::{Mat4, M4s, mul_v4_s, mul_m4_s, inverse_s, det4_s, mul_v4, mul_m4, inverse};
use crate::errors::GeometryError;

verus! {

/// The homogeneous extension of a point, with weight 1.
pub open spec fn ext1_s(v: V3s) -> V4s {
    V4s { x: v.x, y: v.y, z: v.z, w: FX_ONE as int }
}

/// The clip-space image of a point under model and projection.
pub open spec fn clip_s(object: V3s, model: M4s, proj: M4s) -> V4s {
    mul_v4_s(proj, mul_v4_s(model, ext1_s(object)))
}

/// `project` succeeds: the clip-space weight is non-zero.
pub open spec fn project_ok(object: V3s, model: M4s, proj: M4s) -> bool {
    clip_s(object, model, proj).w != 0
}

/// The projected window coordinate: homogeneous divide, remap of
/// [-1, 1] to [0, 1], then viewport scale and offset on x and y.
pub open spec fn project_s(object: V3s, model: M4s, proj: M4s, viewport: V4s) -> V3s {
    let t = clip_s(object, model, proj);
    let nx = sadd(fxm(fxd(t.x, t.w), FX_HALF as int), FX_HALF as int);
    let ny = sadd(fxm(fxd(t.y, t.w), FX_HALF as int), FX_HALF as int);
    let nz = sadd(fxm(fxd(t.z, t.w), FX_HALF as int), FX_HALF as int);
    V3s {
        x: sadd(fxm(nx, viewport.z), viewport.x),
        y: sadd(fxm(ny, viewport.w), viewport.y),
        z: nz,
    }
}

/// Transform a 3D point by `model` then `proj`, divide by the
/// homogeneous weight, and remap into the viewport.
pub fn project(object: &Vec3, model: &Mat4, proj: &Mat4, viewport: &Vec4) -> (r: Result<
    Vec3,
    GeometryError,
>)
    ensures
        r is Ok <==> project_ok(object@, model@, proj@),
        r matches Ok(p) ==> p@ == project_s(object@, model@, proj@, viewport@),
        r matches Err(e) ==> e == GeometryError::SingularProjection,
{
    let hom: Vec4 = object.extend(FX_ONE);
    let t: Vec4 = mul_v4(proj, &mul_v4(model, &hom));
    if t.w == 0 {
        return Err(GeometryError::SingularProjection);
    }
    let nx: i64 = fx_add(fx_mul(fx_div(t.x, t.w), FX_HALF), FX_HALF);
    let ny: i64 = fx_add(fx_mul(fx_div(t.y, t.w), FX_HALF), FX_HALF);
    let nz: i64 = fx_add(fx_mul(fx_div(t.z, t.w), FX_HALF), FX_HALF);
    Ok(
        Vec3 {
            x: fx_add(fx_mul(nx, viewport.z), viewport.x),
            y: fx_add(fx_mul(ny, viewport.w), viewport.y),
            z: nz,
        },
    )
}

/// The normalized device coordinate fed to the inverted matrix.
pub open spec fn unproject_ndc_s(window: V3s, viewport: V4s) -> V4s {
    let ax = fxd(ssub(window.x, viewport.x), viewport.z);
    let ay = fxd(ssub(window.y, viewport.y), viewport.w);
    V4s {
        x: ssub(sat64(ax * 2), FX_ONE as int),
        y: ssub(sat64(ay * 2), FX_ONE as int),
        z: ssub(sat64(window.z * 2), FX_ONE as int),
        w: FX_ONE as int,
    }
}

/// The homogeneous pre-image of the window coordinate.
pub open spec fn unproject_hom_s(window: V3s, model: M4s, proj: M4s, viewport: V4s) -> V4s {
    mul_v4_s(inverse_s(mul_m4_s(proj, model)), unproject_ndc_s(window, viewport))
}

/// `un_project` succeeds: the combined matrix is invertible and the
/// resulting homogeneous weight is non-zero.
pub open spec fn un_project_ok(window: V3s, model: M4s, proj: M4s, viewport: V4s) -> bool {
    det4_s(mul_m4_s(proj, model)) != 0 && unproject_hom_s(window, model, proj, viewport).w != 0
}

/// The un-projected object coordinate.
pub open spec fn un_project_s(window: V3s, model: M4s, proj: M4s, viewport: V4s) -> V3s {
    let o = unproject_hom_s(window, model, proj, viewport);
    V3s { x: fxd(o.x, o.w), y: fxd(o.y, o.w), z: fxd(o.z, o.w) }
}

/// Map a window coordinate back through the inverse of `proj * model`;
/// fails when the combined matrix is singular or the homogeneous weight
/// of the pre-image is zero.
pub fn un_project(window: &Vec3, model: &Mat4, proj: &Mat4, viewport: &Vec4) -> (r: Result<
    Vec3,
    GeometryError,
>)
    requires
        viewport@.z != 0,
        viewport@.w != 0,
    ensures
        r is Ok <==> un_project_ok(window@, model@, proj@, viewport@),
        r matches Ok(p) ==> p@ == un_project_s(window@, model@, proj@, viewport@),
        r matches Err(e) ==> e == GeometryError::SingularProjection,
{
    let pm: Mat4 = mul_m4(proj, model);
    let inv: Mat4 = match inverse(&pm) {
        Ok(i) => i,
        Err(e) => {
            return Err(e);
        },
    };
    let ax: i64 = fx_div(fx_sub(window.x, viewport.x), viewport.z);
    let ay: i64 = fx_div(fx_sub(window.y, viewport.y), viewport.w);
    let ndc: Vec4 = Vec4 {
        x: fx_sub(fx_scale(ax, 2), FX_ONE),
        y: fx_sub(fx_scale(ay, 2), FX_ONE),
        z: fx_sub(fx_scale(window.z, 2), FX_ONE),
        w: FX_ONE,
    };
    let o: Vec4 = mul_v4(&inv, &ndc);
    if o.w == 0 {
        return Err(GeometryError::SingularProjection);
    }
    Ok(Vec3 { x: fx_div(o.x, o.w), y: fx_div(o.y, o.w), z: fx_div(o.z, o.w) })
}

} // verus!
