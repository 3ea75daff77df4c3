//! Intrinsic calibration data of the physical camera.
//!
//! The calibration is immutable for a run: a 3x3 camera matrix, the
//! distortion coefficients, the image size in pixels, and the vertical
//! field of view derived once from the focal length:
//! `fov = degrees(2 * atan(image_height / (2 * f_y)))`.

use vstd::prelude::*;
use crate::fixed::{FX_ONE, sat64, fx_of_int, fx_scale};
use crate::trig::{atan_ratio_s, to_degrees_s, atan_ratio, to_degrees};
use crate::mat::{Mat3, M3s};
use crate::errors::InputFormatError;

verus! {

/// The vertical field of view, in fixed-point degrees, derived from the
/// camera matrix's y focal length and the image height in pixels.
pub open spec fn derived_fov_s(fy: int, image_height: int) -> int {
    to_degrees_s(sat64(2 * atan_ratio_s(sat64(image_height * FX_ONE), sat64(fy * 2))))
}

/// Intrinsic calibration of the physical camera.  The camera matrix
/// entries and distortion coefficients are fixed-point; the image size
/// is in whole pixels.
#[derive(Debug)]
pub struct Calibration {
    /// Row-major 3x3 intrinsic matrix, stored by columns.
    pub camera_matrix: Mat3,
    /// Lens distortion coefficients, consumed by the external undistorter.
    pub distortion_coefficients: Vec<i64>,
    /// Derived vertical field of view, fixed-point degrees.
    pub fov: i64,
    /// Image width in pixels.
    pub image_width: i64,
    /// Image height in pixels.
    pub image_height: i64,
}

impl Calibration {
    /// The calibration is well formed: a positive image size, a positive
    /// y focal length, and the field of view derived from them.
    pub open spec fn wf(&self) -> bool {
        &&& self.image_width >= 1
        &&& self.image_height >= 1
        &&& self.camera_matrix@.c1.y > 0
        &&& self.fov as int == derived_fov_s(self.camera_matrix@.c1.y, self.image_height as int)
    }

    /// Assemble a calibration, deriving the field of view; fails on a
    /// non-positive image size or focal length.
    pub fn new(
        camera_matrix: Mat3,
        distortion_coefficients: Vec<i64>,
        image_width: i64,
        image_height: i64,
    ) -> (r: Result<Calibration, InputFormatError>)
        ensures
            r is Ok <==> image_width >= 1 && image_height >= 1 && camera_matrix@.c1.y > 0,
            r matches Ok(c) ==> {
                &&& c.wf()
                &&& c.camera_matrix == camera_matrix
                &&& c.image_width == image_width
                &&& c.image_height == image_height
                &&& c.fov as int == derived_fov_s(camera_matrix@.c1.y, image_height as int)
            },
            r matches Err(e) ==> if image_width < 1 || image_height < 1 {
                e == InputFormatError::BadImageSize
            } else {
                e == InputFormatError::BadFocalLength
            },
    {
        if image_width < 1 || image_height < 1 {
            return Err(InputFormatError::BadImageSize);
        }
        let fy: i64 = camera_matrix.c1.y;
        if fy <= 0 {
            return Err(InputFormatError::BadFocalLength);
        }
        let h_fx: i64 = fx_of_int(image_height);
        let den: i64 = fx_scale(fy, 2);
        proof {
            assert(sat64((image_height as int) * (FX_ONE as int)) >= 1) by (nonlinear_arith)
                requires
                    image_height as int >= 1,
            ;
            assert(sat64((fy as int) * 2) >= 1) by (nonlinear_arith)
                requires
                    fy as int >= 1,
            ;
        }
        let half_angle: i64 = atan_ratio(h_fx, den);
        let fov: i64 = to_degrees(fx_scale(half_angle, 2));
        Ok(
            Calibration {
                camera_matrix,
                distortion_coefficients,
                fov,
                image_width,
                image_height,
            },
        )
    }
}

} // verus!
