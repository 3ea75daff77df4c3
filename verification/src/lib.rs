//! Per-projector calibration for projection-mapping installations.
//!
//! The crate converts points detected in a photographed calibration
//! pattern into 3D coordinates on a known projection surface (a
//! hemispherical dome or a planar wall), derives a virtual rendering
//! camera that frames those points, and produces a per-point UV
//! remapping ("warp") aligning pre-rendered content to the surface.  A
//! separate pipeline converts a fiducial marker's estimated pose into a
//! physical-camera position, direction and up vector.
//!
//! All scalar values are fixed-point numbers (see [`fixed`]): `i64` raw
//! values counting billionths.

use vstd::prelude::*;

pub mod fixed;
pub mod trig;
pub mod errors;
pub mod vec;
pub mod mat;
pub mod math;
pub mod camera_calibration;
pub mod surfaces;
pub mod camera;
pub mod warp;
pub mod output;
pub mod locator;
pub mod parse;

use crate::vec::{Vec3, ImagePoint, V3s};
use crate::camera_calibration::Calibration;
use crate::surfaces::{SurfaceType, camera_to_scene, camera_to_scene_ok, camera_to_scene_s};
use crate::camera::{VirtualCamera, centroid_s, frame_ok_s, fov_s};
use crate::mat::look_at_s;
use crate::warp::{Projector, aspect_s, uv_s, all_uv_ok_s, generate_uv_warp};
use crate::output::{CalibrationOutput, build_calibration_output};
use crate::errors::{GeometryError, DetectionError, AlignError};
use vstd::pervasive::unreached;

verus! {

/// The physical camera that photographs the projection surface: its
/// position, viewing direction, up direction and intrinsic calibration.
/// The pose may be overwritten from a marker-localization document
/// before a run begins; it is immutable thereafter.
pub struct PhysicalCamera {
    pub position: Vec3,
    pub look_at: Vec3,
    pub up_dir: Vec3,
    pub calibration: Calibration,
}

/// The calibration pattern's interior-corner counts: the number of warp
/// entries along each axis.
#[derive(Clone, Copy, Debug, PartialEq, Eq, Structural)]
pub struct WarpResolution {
    pub width: i64,
    pub height: i64,
}

/// Every detected point maps onto the surface.
pub open spec fn scene_ok_all_s(
    surface: SurfaceType,
    pos: V3s,
    dir: V3s,
    up: V3s,
    fov: int,
    pts: Seq<ImagePoint>,
    w: int,
    h: int,
) -> bool {
    forall|i: int|
        0 <= i < pts.len() ==> camera_to_scene_ok(surface, pos, dir, up, fov, #[trigger] pts[i]@, w, h)
}

/// The scene points of the detected points, in the same order.
pub open spec fn scene_seq_s(
    surface: SurfaceType,
    pos: V3s,
    dir: V3s,
    up: V3s,
    fov: int,
    pts: Seq<ImagePoint>,
    w: int,
    h: int,
) -> Seq<V3s> {
    Seq::new(pts.len(), |i: int| camera_to_scene_s(surface, pos, dir, up, fov, pts[i]@, w, h))
}

/// Convert each detected pattern point to a point in 3D world space, in
/// the same order; the first point that fails aborts the whole batch.
#[verifier::rlimit(60)]
pub fn locate_scene_coords(
    surface: &SurfaceType,
    physical_camera: &PhysicalCamera,
    image_points: &Vec<ImagePoint>,
) -> (r: Result<Vec<Vec3>, GeometryError>)
    requires
        physical_camera.calibration.image_width >= 1,
        physical_camera.calibration.image_height >= 1,
    ensures
        r is Ok <==> scene_ok_all_s(
            *surface,
            physical_camera.position@,
            physical_camera.look_at@,
            physical_camera.up_dir@,
            physical_camera.calibration.fov as int,
            image_points@,
            physical_camera.calibration.image_width as int,
            physical_camera.calibration.image_height as int,
        ),
        r matches Ok(v) ==> v@.len() == image_points@.len() && v@.map_values(|p: Vec3| p@)
            == scene_seq_s(
            *surface,
            physical_camera.position@,
            physical_camera.look_at@,
            physical_camera.up_dir@,
            physical_camera.calibration.fov as int,
            image_points@,
            physical_camera.calibration.image_width as int,
            physical_camera.calibration.image_height as int,
        ),
{
    let ghost pos: V3s = physical_camera.position@;
    let ghost dir: V3s = physical_camera.look_at@;
    let ghost up: V3s = physical_camera.up_dir@;
    let ghost fov: int = physical_camera.calibration.fov as int;
    let ghost w: int = physical_camera.calibration.image_width as int;
    let ghost h: int = physical_camera.calibration.image_height as int;
    let mut scene_coords: Vec<Vec3> = Vec::new();
    let n: usize = image_points.len();
    let mut i: usize = 0;
    while i < n
        invariant
            0 <= i <= n,
            n == image_points.len(),
            pos == physical_camera.position@,
            dir == physical_camera.look_at@,
            up == physical_camera.up_dir@,
            fov == physical_camera.calibration.fov as int,
            w == physical_camera.calibration.image_width as int,
            h == physical_camera.calibration.image_height as int,
            w >= 1,
            h >= 1,
            scene_coords@.len() == i as int,
            forall|j: int|
                0 <= j < i as int ==> camera_to_scene_ok(
                    *surface,
                    pos,
                    dir,
                    up,
                    fov,
                    #[trigger] image_points@[j]@,
                    w,
                    h,
                ),
            forall|j: int|
                0 <= j < i as int ==> #[trigger] scene_coords@[j]@ == camera_to_scene_s(
                    *surface,
                    pos,
                    dir,
                    up,
                    fov,
                    image_points@[j]@,
                    w,
                    h,
                ),
        decreases n - i,
    {
        let scene_coord: Vec3 = match camera_to_scene(
            surface,
            physical_camera,
            image_points[i],
            physical_camera.calibration.image_width,
            physical_camera.calibration.image_height,
        ) {
            Ok(p) => p,
            Err(e) => {
                proof {
                    assert(!camera_to_scene_ok(*surface, pos, dir, up, fov, image_points@[
                        i as int]@, w, h));
                }
                return Err(e);
            },
        };
        scene_coords.push(scene_coord);
        i = i + 1;
    }
    proof {
        assert(scene_coords@.map_values(|p: Vec3| p@) =~= scene_seq_s(
            *surface,
            pos,
            dir,
            up,
            fov,
            image_points@,
            w,
            h,
        ));
    }
    Ok(scene_coords)
}

/// Run the warp pipeline on detected pattern points: locate the scene
/// points on the surface, frame the virtual camera (look-at and vertical
/// field of view), project every scene point to a UV, and assemble the
/// calibration document.  The first failing point aborts the run; the
/// point count must equal the pattern's interior-corner count.
#[verifier::rlimit(100)]
pub fn produce_calibration(
    surface: &SurfaceType,
    physical_camera: &PhysicalCamera,
    virtual_camera: &VirtualCamera,
    projector: &Projector,
    image_points: &Vec<ImagePoint>,
    warp_res: WarpResolution,
) -> (r: Result<CalibrationOutput, AlignError>)
    requires
        physical_camera.calibration.image_width >= 1,
        physical_camera.calibration.image_height >= 1,
        projector.resolution_y >= 1,
        image_points@.len() <= 1_000_000_000,
    ensures
        ({
            let spts = scene_seq_s(
                *surface,
                physical_camera.position@,
                physical_camera.look_at@,
                physical_camera.up_dir@,
                physical_camera.calibration.fov as int,
                image_points@,
                physical_camera.calibration.image_width as int,
                physical_camera.calibration.image_height as int,
            );
            let view = look_at_s(virtual_camera.position@, centroid_s(spts), virtual_camera.up_dir@);
            let aspect = aspect_s(projector.resolution_x as int, projector.resolution_y as int);
            &&& (r is Ok <==> image_points@.len() as int == warp_res.width * warp_res.height
                && scene_ok_all_s(
                *surface,
                physical_camera.position@,
                physical_camera.look_at@,
                physical_camera.up_dir@,
                physical_camera.calibration.fov as int,
                image_points@,
                physical_camera.calibration.image_width as int,
                physical_camera.calibration.image_height as int,
            ) && frame_ok_s(virtual_camera.position@, virtual_camera.up_dir@, spts) && all_uv_ok_s(
                virtual_camera.position@,
                centroid_s(spts),
                virtual_camera.up_dir@,
                fov_s(view, spts),
                aspect,
                spts,
            ))
            &&& (r matches Ok(o) ==> {
                &&& o.eye == virtual_camera.position
                &&& o.up == virtual_camera.up_dir
                &&& o.look_at@ == centroid_s(spts)
                &&& o.fov as int == fov_s(view, spts)
                &&& o.warp_res_x == warp_res.width
                &&& o.warp_res_y == warp_res.height
                &&& o.warp@.len() as int == o.warp_res_x * o.warp_res_y
                &&& o.warp@.len() == image_points@.len()
                &&& forall|i: int|
                    0 <= i < spts.len() ==> #[trigger] o.warp@[i]@ == uv_s(
                        virtual_camera.position@,
                        centroid_s(spts),
                        virtual_camera.up_dir@,
                        fov_s(view, spts),
                        aspect,
                        spts[i],
                    )
            })
            &&& (image_points@.len() as int != warp_res.width * warp_res.height ==> r == Err::<
                CalibrationOutput,
                AlignError,
            >(AlignError::Detection(DetectionError::IncompleteCornerSet)))
        }),
{
    proof {
        assert((warp_res.width as int) * (warp_res.height as int)
            <= 0x40000000000000000000000000000000 && (warp_res.width as int) * (
        warp_res.height as int) >= -0x40000000000000000000000000000000) by (nonlinear_arith)
            requires
                -0x8000000000000000 <= warp_res.width as int <= 0x7fffffffffffffff,
                -0x8000000000000000 <= warp_res.height as int <= 0x7fffffffffffffff,
        ;
    }
    let expected: i128 = (warp_res.width as i128) * (warp_res.height as i128);
    if (image_points.len() as i128) != expected {
        return Err(AlignError::Detection(DetectionError::IncompleteCornerSet));
    }
    let scene_coords: Vec<Vec3> = match locate_scene_coords(surface, physical_camera, image_points) {
        Ok(v) => v,
        Err(e) => {
            return Err(AlignError::Geometry(e));
        },
    };
    let framed: crate::camera::FramedCamera = match virtual_camera.frame(&scene_coords) {
        Ok(c) => c,
        Err(e) => {
            return Err(AlignError::Geometry(e));
        },
    };
    let uv_coords: Vec<crate::warp::WarpEntry> = match generate_uv_warp(
        &scene_coords,
        &framed,
        projector,
    ) {
        Ok(v) => v,
        Err(e) => {
            return Err(AlignError::Geometry(e));
        },
    };
    match build_calibration_output(&framed, warp_res, uv_coords) {
        Ok(o) => Ok(o),
        Err(_) => unreached(),
    }
}

} // verus!
