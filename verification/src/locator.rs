//! Marker localization: from a single fiducial marker's estimated pose
//! to the physical camera's position, direction and up vector in a
//! marker-centered world frame.
//!
//! The detector reports the pose in its native camera-space convention
//! (camera looks down +Z, Y points down); the Y and Z components of both
//! vectors are negated to convert.  Rodrigues' formula turns the
//! axis-angle rotation into a matrix; a fixed additional 180-degree
//! rotation about the X axis — an empirically required fixup for the
//! detector's convention, preserved literally — is applied after the
//! model-view matrix is assembled.  The camera pose is then recovered
//! through the transpose of the (orthonormal) rotation block.

use vstd::prelude::*;
use crate::fixed::{FX_ONE, fxm, fxd, sadd, ssub, sneg, fx_mul, fx_div, fx_add, fx_sub, fx_neg};
use crate::trig::{sin_rad_s, cos_rad_s, sin_rad, cos_rad};
use crate::vec::{Vec3, Vec4, V3s, V4s, norm3_s};
use crate::mat::{Mat3, M3s, Mat4, M4s, transpose_s, mul_v4_s, transpose, mul_v4};
use crate::errors::DetectionError;

verus! {

/// A camera pose in the marker-centered world frame: the artifact of the
/// marker-localization pipeline, consumed as the physical-camera pose on
/// a later run.
#[derive(Clone, Copy, Debug, PartialEq, Eq, Structural)]
pub struct CameraLocation {
    pub position: Vec3,
    pub direction: Vec3,
    pub up: Vec3,
    /// The camera's vertical field of view, fixed-point degrees.
    pub fov: i64,
}

/// Negate the Y and Z components: the detector's camera-space convention
/// converted to the pipeline's.
pub open spec fn axis_convert_s(v: V3s) -> V3s {
    V3s { x: v.x, y: sneg(v.y), z: sneg(v.z) }
}

/// Rodrigues' rotation formula: the rotation matrix of an axis-angle
/// vector, with angle |r| and unit axis r / |r|; the identity when the
/// angle is zero.
pub open spec fn rodrigues_s(r: V3s) -> M3s {
    let th = norm3_s(r);
    if th == 0 {
        M3s {
            c0: V3s { x: FX_ONE as int, y: 0, z: 0 },
            c1: V3s { x: 0, y: FX_ONE as int, z: 0 },
            c2: V3s { x: 0, y: 0, z: FX_ONE as int },
        }
    } else {
        let kx = fxd(r.x, th);
        let ky = fxd(r.y, th);
        let kz = fxd(r.z, th);
        let s = sin_rad_s(th);
        let c = cos_rad_s(th);
        let t = ssub(FX_ONE as int, c);
        M3s {
            c0: V3s {
                x: sadd(c, fxm(t, fxm(kx, kx))),
                y: sadd(fxm(t, fxm(kx, ky)), fxm(s, kz)),
                z: ssub(fxm(t, fxm(kx, kz)), fxm(s, ky)),
            },
            c1: V3s {
                x: ssub(fxm(t, fxm(kx, ky)), fxm(s, kz)),
                y: sadd(c, fxm(t, fxm(ky, ky))),
                z: sadd(fxm(t, fxm(ky, kz)), fxm(s, kx)),
            },
            c2: V3s {
                x: sadd(fxm(t, fxm(kx, kz)), fxm(s, ky)),
                y: ssub(fxm(t, fxm(ky, kz)), fxm(s, kx)),
                z: sadd(c, fxm(t, fxm(kz, kz))),
            },
        }
    }
}

/// Rodrigues' rotation formula.
pub fn rodrigues(r: &Vec3) -> (m: Mat3)
    ensures
        m@ == rodrigues_s(r@),
{
    let th: i64 = r.norm();
    if th == 0 {
        return Mat3 {
            c0: Vec3 { x: FX_ONE, y: 0, z: 0 },
            c1: Vec3 { x: 0, y: FX_ONE, z: 0 },
            c2: Vec3 { x: 0, y: 0, z: FX_ONE },
        };
    }
    let kx: i64 = fx_div(r.x, th);
    let ky: i64 = fx_div(r.y, th);
    let kz: i64 = fx_div(r.z, th);
    let s: i64 = sin_rad(th);
    let c: i64 = cos_rad(th);
    let t: i64 = fx_sub(FX_ONE, c);
    Mat3 {
        c0: Vec3 {
            x: fx_add(c, fx_mul(t, fx_mul(kx, kx))),
            y: fx_add(fx_mul(t, fx_mul(kx, ky)), fx_mul(s, kz)),
            z: fx_sub(fx_mul(t, fx_mul(kx, kz)), fx_mul(s, ky)),
        },
        c1: Vec3 {
            x: fx_sub(fx_mul(t, fx_mul(kx, ky)), fx_mul(s, kz)),
            y: fx_add(c, fx_mul(t, fx_mul(ky, ky))),
            z: fx_add(fx_mul(t, fx_mul(ky, kz)), fx_mul(s, kx)),
        },
        c2: Vec3 {
            x: fx_add(fx_mul(t, fx_mul(kx, kz)), fx_mul(s, ky)),
            y: fx_sub(fx_mul(t, fx_mul(ky, kz)), fx_mul(s, kx)),
            z: fx_add(c, fx_mul(t, fx_mul(kz, kz))),
        },
    }
}

/// The model-view matrix of the marker pose: the rotation block in the
/// upper-left 3x3, the translation in the last column.
pub open spec fn pose_matrix_s(rot: M3s, t: V3s) -> M4s {
    M4s {
        c0: V4s { x: rot.c0.x, y: rot.c0.y, z: rot.c0.z, w: 0 },
        c1: V4s { x: rot.c1.x, y: rot.c1.y, z: rot.c1.z, w: 0 },
        c2: V4s { x: rot.c2.x, y: rot.c2.y, z: rot.c2.z, w: 0 },
        c3: V4s { x: t.x, y: t.y, z: t.z, w: FX_ONE as int },
    }
}

/// The fixed 180-degree rotation about the X axis, applied on the right:
/// the second and third columns change sign.
pub open spec fn rotate_x180_s(m: M4s) -> M4s {
    M4s {
        c0: m.c0,
        c1: V4s { x: sneg(m.c1.x), y: sneg(m.c1.y), z: sneg(m.c1.z), w: sneg(m.c1.w) },
        c2: V4s { x: sneg(m.c2.x), y: sneg(m.c2.y), z: sneg(m.c2.z), w: sneg(m.c2.w) },
        c3: m.c3,
    }
}

/// The fixed-up model-view matrix of a detected marker pose.
pub open spec fn marker_view_s(rvec: V3s, tvec: V3s) -> M4s {
    rotate_x180_s(
        pose_matrix_s(rodrigues_s(axis_convert_s(rvec)), axis_convert_s(tvec)),
    )
}

/// The matrix with its translation column removed.
pub open spec fn zero_translation_s(m: M4s) -> M4s {
    M4s { c0: m.c0, c1: m.c1, c2: m.c2, c3: V4s { x: 0, y: 0, z: 0, w: FX_ONE as int } }
}

/// The inverse rotation of the fixed-up pose: the transpose of its
/// orthonormal rotation block.
pub open spec fn marker_inv_rotation_s(rvec: V3s, tvec: V3s) -> M4s {
    transpose_s(zero_translation_s(marker_view_s(rvec, tvec)))
}

/// The camera's world position: the inverse rotation applied to the
/// negated translation.
pub open spec fn marker_position_s(rvec: V3s, tvec: V3s) -> V3s {
    let m = marker_view_s(rvec, tvec);
    let o = mul_v4_s(
        marker_inv_rotation_s(rvec, tvec),
        V4s { x: sneg(m.c3.x), y: sneg(m.c3.y), z: sneg(m.c3.z), w: FX_ONE as int },
    );
    V3s { x: o.x, y: o.y, z: o.z }
}

/// The camera's world viewing direction: the inverse rotation applied to
/// (0, 0, -1).
pub open spec fn marker_direction_s(rvec: V3s, tvec: V3s) -> V3s {
    let o = mul_v4_s(
        marker_inv_rotation_s(rvec, tvec),
        V4s { x: 0, y: 0, z: -(FX_ONE as int), w: FX_ONE as int },
    );
    V3s { x: o.x, y: o.y, z: o.z }
}

/// The camera's world up direction: the inverse rotation applied to
/// (0, 1, 0).
pub open spec fn marker_up_s(rvec: V3s, tvec: V3s) -> V3s {
    let o = mul_v4_s(
        marker_inv_rotation_s(rvec, tvec),
        V4s { x: 0, y: FX_ONE as int, z: 0, w: FX_ONE as int },
    );
    V3s { x: o.x, y: o.y, z: o.z }
}

/// Recover the camera pose from exactly one detected marker's estimated
/// rotation and translation vectors; fails when zero markers or more
/// than one marker were detected.  The marker is assumed to sit at the
/// origin facing the positive Z axis.
pub fn locate_aruco_marker(rvecs: &Vec<Vec3>, tvecs: &Vec<Vec3>, fov: i64) -> (r: Result<
    CameraLocation,
    DetectionError,
>)
    ensures
        r is Ok <==> rvecs@.len() == 1 && tvecs@.len() == 1,
        r matches Ok(loc) ==> {
            &&& loc.position@ == marker_position_s(rvecs@[0]@, tvecs@[0]@)
            &&& loc.direction@ == marker_direction_s(rvecs@[0]@, tvecs@[0]@)
            &&& loc.up@ == marker_up_s(rvecs@[0]@, tvecs@[0]@)
            &&& loc.fov == fov
        },
        r matches Err(e) ==> if rvecs@.len() == 0 || tvecs@.len() == 0 {
            e == DetectionError::NoMarkers
        } else {
            e == DetectionError::MultipleMarkers
        },
{
    if rvecs.len() == 0 || tvecs.len() == 0 {
        return Err(DetectionError::NoMarkers);
    }
    if rvecs.len() > 1 || tvecs.len() > 1 {
        return Err(DetectionError::MultipleMarkers);
    }
    let rvec: Vec3 = Vec3 { x: rvecs[0].x, y: fx_neg(rvecs[0].y), z: fx_neg(rvecs[0].z) };
    let tvec: Vec3 = Vec3 { x: tvecs[0].x, y: fx_neg(tvecs[0].y), z: fx_neg(tvecs[0].z) };
    let rot: Mat3 = rodrigues(&rvec);
    let modelview: Mat4 = Mat4 {
        c0: rot.c0.extend(0),
        c1: rot.c1.extend(0),
        c2: rot.c2.extend(0),
        c3: tvec.extend(FX_ONE),
    };
    let fixed_up: Mat4 = Mat4 {
        c0: modelview.c0,
        c1: Vec4 {
            x: fx_neg(modelview.c1.x),
            y: fx_neg(modelview.c1.y),
            z: fx_neg(modelview.c1.z),
            w: fx_neg(modelview.c1.w),
        },
        c2: Vec4 {
            x: fx_neg(modelview.c2.x),
            y: fx_neg(modelview.c2.y),
            z: fx_neg(modelview.c2.z),
            w: fx_neg(modelview.c2.w),
        },
        c3: modelview.c3,
    };
    let translation: Vec4 = fixed_up.c3;
    let rotation: Mat4 = Mat4 {
        c0: fixed_up.c0,
        c1: fixed_up.c1,
        c2: fixed_up.c2,
        c3: Vec4 { x: 0, y: 0, z: 0, w: FX_ONE },
    };
    let inv_rotation: Mat4 = transpose(&rotation);
    let negative: Vec4 = Vec4 {
        x: fx_neg(translation.x),
        y: fx_neg(translation.y),
        z: fx_neg(translation.z),
        w: FX_ONE,
    };
    let position: Vec4 = mul_v4(&inv_rotation, &negative);
    let dir: Vec4 = mul_v4(&inv_rotation, &Vec4 { x: 0, y: 0, z: -FX_ONE, w: FX_ONE });
    let up: Vec4 = mul_v4(&inv_rotation, &Vec4 { x: 0, y: FX_ONE, z: 0, w: FX_ONE });
    Ok(
        CameraLocation {
            position: position.truncate(),
            direction: dir.truncate(),
            up: up.truncate(),
            fov,
        },
    )
}

/// Overwrite the physical camera's pose with a marker-derived location;
/// the intrinsic calibration is untouched.
pub fn update_physical_camera_location(
    physical_camera: &mut crate::PhysicalCamera,
    location: &CameraLocation,
)
    ensures
        final(physical_camera).position == location.position,
        final(physical_camera).look_at == location.direction,
        final(physical_camera).up_dir == location.up,
        final(physical_camera).calibration == old(physical_camera).calibration,
{
    physical_camera.position = location.position;
    physical_camera.look_at = location.direction;
    physical_camera.up_dir = location.up;
}

} // verus!
