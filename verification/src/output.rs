//! Assembly of the final calibration document.
//!
//! The document's shape is the external contract: the framed camera's
//! field of view, eye, look-at and up, the calibration pattern's
//! interior-corner counts, and the warp, whose length must equal
//! `warpResX * warpResY` with entries in pattern row-major order.

use vstd::prelude::*;
use crate::vec::Vec3;
use crate::camera::FramedCamera;
use crate::warp::WarpEntry;
use crate::errors::DetectionError;
use crate::WarpResolution;

verus! {

/// The single externally persisted artifact of the warp pipeline.
#[derive(Debug)]
pub struct CalibrationOutput {
    /// Vertical field of view of the virtual camera, fixed-point degrees.
    pub fov: i64,
    /// Eye position of the virtual camera.
    pub eye: Vec3,
    /// Derived look-at point.
    pub look_at: Vec3,
    /// Up direction of the virtual camera.
    pub up: Vec3,
    /// Interior-corner count of the pattern along x.
    pub warp_res_x: i64,
    /// Interior-corner count of the pattern along y.
    pub warp_res_y: i64,
    /// UV pairs in pattern row-major order.
    pub warp: Vec<WarpEntry>,
}

/// Assemble the calibration document; fails when the warp length does
/// not equal the pattern's interior-corner count.
pub fn build_calibration_output(
    virtual_camera: &FramedCamera,
    warp_res: WarpResolution,
    warp: Vec<WarpEntry>,
) -> (r: Result<CalibrationOutput, DetectionError>)
    ensures
        r is Ok <==> warp@.len() as int == warp_res.width * warp_res.height,
        r matches Ok(o) ==> {
            &&& o.fov == virtual_camera.fov
            &&& o.eye == virtual_camera.position
            &&& o.look_at == virtual_camera.look_at
            &&& o.up == virtual_camera.up_dir
            &&& o.warp_res_x == warp_res.width
            &&& o.warp_res_y == warp_res.height
            &&& o.warp == warp
            &&& o.warp@.len() as int == o.warp_res_x * o.warp_res_y
        },
        r matches Err(e) ==> e == DetectionError::IncompleteCornerSet,
{
    proof {
        assert((warp_res.width as int) * (warp_res.height as int)
            <= 0x40000000000000000000000000000000 && (warp_res.width as int) * (
        warp_res.height as int) >= -0x40000000000000000000000000000000) by (nonlinear_arith)
            requires
                -0x8000000000000000 <= warp_res.width as int <= 0x7fffffffffffffff,
                -0x8000000000000000 <= warp_res.height as int <= 0x7fffffffffffffff,
        ;
    }
    let expected: i128 = (warp_res.width as i128) * (warp_res.height as i128);
    if (warp.len() as i128) != expected {
        return Err(DetectionError::IncompleteCornerSet);
    }
    Ok(
        CalibrationOutput {
            fov: virtual_camera.fov,
            eye: virtual_camera.position,
            look_at: virtual_camera.look_at,
            up: virtual_camera.up_dir,
            warp_res_x: warp_res.width,
            warp_res_y: warp_res.height,
            warp,
        },
    )
}

} // verus!
