//! Screen-space (UV) projection of scene points through the framed
//! virtual camera.
//!
//! Each scene point is projected with the unit-square viewport, so the
//! resulting (x, y) is the normalized UV directly.  Values may fall
//! outside [0, 1]^2; they are recorded unmodified, never clamped.  The
//! output order is identical to the input order: entry i corresponds to
//! scene point i, which is load-bearing for any consumer re-gridding the
//! warp.

use vstd::prelude::*;
use crate::fixed::{FX_ONE, fxd, sat64, fx_div, fx_of_int};
use crate::trig::{to_radians_s, to_radians};
use crate::vec::{Vec3, Vec4, V3s, V4s};
use crate::mat::{Mat4, M4s, look_at_ok, look_at_s, perspective_ok, perspective_s, look_at,
    perspective};
use crate::math::{project_ok, project_s, project};
use crate::camera::FramedCamera;
use crate::errors::GeometryError;

verus! {

/// Near clip plane of the virtual camera's frustum.
pub const WARP_NEAR: i64 = 100_000_000;

/// Far clip plane of the virtual camera's frustum.
pub const WARP_FAR: i64 = 100_000_000_000;

/// The projector that displays the rendered content.
pub struct Projector {
    /// Horizontal output resolution in pixels.
    pub resolution_x: i64,
    /// Vertical output resolution in pixels.
    pub resolution_y: i64,
}

/// The aspect ratio of a projector output as a fraction (width/height).
pub open spec fn aspect_s(x: int, y: int) -> int {
    fxd(sat64(x * FX_ONE), sat64(y * FX_ONE))
}

impl Projector {
    /// Aspect ratio of projector output as a fraction (width/height).
    pub fn aspect_ratio(&self) -> (r: i64)
        requires
            self.resolution_y >= 1,
        ensures
            r as int == aspect_s(self.resolution_x as int, self.resolution_y as int),
    {
        proof {
            assert(sat64((self.resolution_y as int) * (FX_ONE as int)) >= FX_ONE as int)
                by (nonlinear_arith)
                requires
                    self.resolution_y as int >= 1,
            ;
        }
        fx_div(fx_of_int(self.resolution_x), fx_of_int(self.resolution_y))
    }
}

/// One UV pair of the warp, parallel in order to the scene points.
#[derive(Clone, Copy, Debug, PartialEq, Eq, Structural)]
pub struct WarpEntry {
    pub u: i64,
    pub v: i64,
}

/// Ghost image of a [`WarpEntry`].
pub ghost struct W2s {
    pub u: int,
    pub v: int,
}

impl View for WarpEntry {
    type V = W2s;

    open spec fn view(&self) -> W2s {
        W2s { u: self.u as int, v: self.v as int }
    }
}

/// The virtual camera's frustum.
pub open spec fn warp_proj_s(fov: int, aspect: int) -> M4s {
    perspective_s(to_radians_s(fov), aspect, WARP_NEAR as int, WARP_FAR as int)
}

/// The unit-square viewport, whose window coordinates are UVs.
pub open spec fn unit_viewport_s() -> V4s {
    V4s { x: 0, y: 0, z: FX_ONE as int, w: FX_ONE as int }
}

/// Projecting a scene point through the framed camera succeeds: the
/// camera basis and frustum exist and the clip-space weight is non-zero.
pub open spec fn uv_ok_s(pos: V3s, look: V3s, up: V3s, fov: int, aspect: int, p: V3s) -> bool {
    &&& look_at_ok(pos, look, up)
    &&& perspective_ok(to_radians_s(fov), aspect, WARP_NEAR as int, WARP_FAR as int)
    &&& project_ok(p, look_at_s(pos, look, up), warp_proj_s(fov, aspect))
}

/// The normalized screen position of a scene point.
pub open spec fn uv_s(pos: V3s, look: V3s, up: V3s, fov: int, aspect: int, p: V3s) -> W2s {
    let w = project_s(p, look_at_s(pos, look, up), warp_proj_s(fov, aspect), unit_viewport_s());
    W2s { u: w.x, v: w.y }
}

impl FramedCamera {
    /// Given virtual camera details, calculate the normalized screen
    /// position of the point in 3D space.  A UV outside [0, 1]^2 is not
    /// an error: the value is returned unmodified.
    pub fn project_scene_point(&self, scene_pos: &Vec3, projector_aspect_ratio: i64) -> (r: Result<
        WarpEntry,
        GeometryError,
    >)
        ensures
            r is Ok <==> uv_ok_s(
                self.position@,
                self.look_at@,
                self.up_dir@,
                self.fov as int,
                projector_aspect_ratio as int,
                scene_pos@,
            ),
            r matches Ok(uv) ==> uv@ == uv_s(
                self.position@,
                self.look_at@,
                self.up_dir@,
                self.fov as int,
                projector_aspect_ratio as int,
                scene_pos@,
            ),
            r matches Err(e) ==> (e == GeometryError::DegenerateCamera || e
                == GeometryError::SingularProjection),
    {
        let model: Mat4 = match look_at(&self.position, &self.look_at, &self.up_dir) {
            Ok(m) => m,
            Err(e) => {
                return Err(e);
            },
        };
        let proj: Mat4 = match perspective(
            to_radians(self.fov),
            projector_aspect_ratio,
            WARP_NEAR,
            WARP_FAR,
        ) {
            Ok(m) => m,
            Err(e) => {
                return Err(e);
            },
        };
        let viewport: Vec4 = Vec4 { x: 0, y: 0, z: FX_ONE, w: FX_ONE };
        let screen: Vec3 = match project(scene_pos, &model, &proj, &viewport) {
            Ok(p) => p,
            Err(e) => {
                return Err(e);
            },
        };
        Ok(WarpEntry { u: screen.x, v: screen.y })
    }
}

/// Every point of the set projects to a UV.
pub open spec fn all_uv_ok_s(pos: V3s, look: V3s, up: V3s, fov: int, aspect: int, s: Seq<V3s>) -> bool {
    forall|i: int| 0 <= i < s.len() ==> uv_ok_s(pos, look, up, fov, aspect, #[trigger] s[i])
}

/// Project every scene point into a UV, in the same order; the first
/// failing point aborts the whole batch.
#[verifier::rlimit(60)]
pub fn generate_uv_warp(
    scene_coords: &Vec<Vec3>,
    virtual_camera: &FramedCamera,
    projector: &Projector,
) -> (r: Result<Vec<WarpEntry>, GeometryError>)
    requires
        projector.resolution_y >= 1,
    ensures
        r is Ok <==> all_uv_ok_s(
            virtual_camera.position@,
            virtual_camera.look_at@,
            virtual_camera.up_dir@,
            virtual_camera.fov as int,
            aspect_s(projector.resolution_x as int, projector.resolution_y as int),
            scene_coords@.map_values(|p: Vec3| p@),
        ),
        r matches Ok(v) ==> v@.len() == scene_coords@.len(),
        r matches Ok(v) ==> forall|i: int|
            0 <= i < scene_coords@.len() ==> #[trigger] v@[i]@ == uv_s(
                virtual_camera.position@,
                virtual_camera.look_at@,
                virtual_camera.up_dir@,
                virtual_camera.fov as int,
                aspect_s(projector.resolution_x as int, projector.resolution_y as int),
                scene_coords@.map_values(|p: Vec3| p@)[i],
            ),
{
    let ghost s: Seq<V3s> = scene_coords@.map_values(|p: Vec3| p@);
    let ghost a: int = aspect_s(projector.resolution_x as int, projector.resolution_y as int);
    let aspect: i64 = projector.aspect_ratio();
    let mut uv_coords: Vec<WarpEntry> = Vec::new();
    let n: usize = scene_coords.len();
    let mut i: usize = 0;
    while i < n
        invariant
            0 <= i <= n,
            n == scene_coords.len(),
            s == scene_coords@.map_values(|p: Vec3| p@),
            a == aspect_s(projector.resolution_x as int, projector.resolution_y as int),
            aspect as int == a,
            uv_coords@.len() == i as int,
            forall|j: int|
                0 <= j < i as int ==> uv_ok_s(
                    virtual_camera.position@,
                    virtual_camera.look_at@,
                    virtual_camera.up_dir@,
                    virtual_camera.fov as int,
                    a,
                    #[trigger] s[j],
                ),
            forall|j: int|
                0 <= j < i as int ==> #[trigger] uv_coords@[j]@ == uv_s(
                    virtual_camera.position@,
                    virtual_camera.look_at@,
                    virtual_camera.up_dir@,
                    virtual_camera.fov as int,
                    a,
                    s[j],
                ),
        decreases n - i,
    {
        let uv: WarpEntry = match virtual_camera.project_scene_point(&scene_coords[i], aspect) {
            Ok(uv) => uv,
            Err(e) => {
                proof {
                    assert(!uv_ok_s(
                        virtual_camera.position@,
                        virtual_camera.look_at@,
                        virtual_camera.up_dir@,
                        virtual_camera.fov as int,
                        a,
                        s[i as int],
                    ));
                    assert(!all_uv_ok_s(
                        virtual_camera.position@,
                        virtual_camera.look_at@,
                        virtual_camera.up_dir@,
                        virtual_camera.fov as int,
                        a,
                        s,
                    ));
                }
                return Err(e);
            },
        };
        uv_coords.push(uv);
        i = i + 1;
    }
    Ok(uv_coords)
}

} // verus!
