//! The virtual rendering camera and its framing.
//!
//! The camera passes through two states, modelled as two types: an
//! unframed [`VirtualCamera`] holds only the fixed eye position and up
//! direction; [`VirtualCamera::frame`] derives the look-at point (the
//! component-wise mean of the scene points — a deliberate approximation)
//! and the vertical field of view (twice the largest eye-space
//! half-angle, inflated by the fixed 5% margin on each side), and hands
//! back a [`FramedCamera`].  Projection is only offered on the framed
//! type, so the ordering is enforced at compile time.

use vstd::prelude::*;
use vstd::arithmetic::div_mod::lemma_div_is_ordered;
use crate::fixed::{FX_ONE, sadd, sabs, sat64, tdiv, iabs, fxm, fx_add, fx_abs, tdiv_small,
    fx_scale};
use crate::trig::{RAD_TO_DEG, atan_ratio_s, to_degrees_s, atan_ratio, to_degrees};
use crate::vec::{Vec3, Vec4, V3s, V4s};
use crate::mat::{Mat4, M4s, look_at_ok, look_at_s, mul_v4_s, look_at, mul_v4};
use crate::math::ext1_s;
use crate::errors::GeometryError;

verus! {

/// The virtual rendering camera before framing: the fixed eye position
/// and up direction.
pub struct VirtualCamera {
    pub position: Vec3,
    pub up_dir: Vec3,
}

/// The virtual rendering camera after framing: look-at point and
/// vertical field of view (fixed-point degrees) have been derived.
#[derive(Debug)]
pub struct FramedCamera {
    pub position: Vec3,
    pub look_at: Vec3,
    pub up_dir: Vec3,
    pub fov: i64,
}

/// Clamped sum of the x components.
pub open spec fn sum_x_s(s: Seq<V3s>) -> int
    decreases s.len(),
{
    if s.len() == 0 {
        0
    } else {
        sadd(sum_x_s(s.drop_last()), s.last().x)
    }
}

/// Clamped sum of the y components.
pub open spec fn sum_y_s(s: Seq<V3s>) -> int
    decreases s.len(),
{
    if s.len() == 0 {
        0
    } else {
        sadd(sum_y_s(s.drop_last()), s.last().y)
    }
}

/// Clamped sum of the z components.
pub open spec fn sum_z_s(s: Seq<V3s>) -> int
    decreases s.len(),
{
    if s.len() == 0 {
        0
    } else {
        sadd(sum_z_s(s.drop_last()), s.last().z)
    }
}

/// The component-wise mean of a non-empty point set.
pub open spec fn centroid_s(s: Seq<V3s>) -> V3s {
    V3s {
        x: tdiv(sum_x_s(s), s.len() as int),
        y: tdiv(sum_y_s(s), s.len() as int),
        z: tdiv(sum_z_s(s), s.len() as int),
    }
}

/// A point carried into eye space by the view matrix.
pub open spec fn eye_space_s(view: M4s, p: V3s) -> V4s {
    mul_v4_s(view, ext1_s(p))
}

/// The eye-space half-angle of a point: atan(|y| / |z|).
pub open spec fn half_angle_s(view: M4s, p: V3s) -> int {
    atan_ratio_s(sabs(eye_space_s(view, p).y), sabs(eye_space_s(view, p).z))
}

/// Every point sits at non-zero eye-space depth.
pub open spec fn points_ok_s(view: M4s, s: Seq<V3s>) -> bool {
    forall|i: int| 0 <= i < s.len() ==> #[trigger] eye_space_s(view, s[i]).z != 0
}

/// The largest eye-space half-angle over the set, starting from the
/// sentinel -1 for the empty set.
pub open spec fn max_half_angle_s(view: M4s, s: Seq<V3s>) -> int
    decreases s.len(),
{
    if s.len() == 0 {
        -(FX_ONE as int)
    } else {
        let m = max_half_angle_s(view, s.drop_last());
        let h = half_angle_s(view, s.last());
        if h > m {
            h
        } else {
            m
        }
    }
}

/// The framed vertical field of view in fixed-point degrees: the largest
/// half-angle in degrees, doubled and inflated by 5% on each side
/// (factor 21/10).
pub open spec fn fov_s(view: M4s, s: Seq<V3s>) -> int {
    tdiv(sat64(to_degrees_s(max_half_angle_s(view, s)) * 21), 10)
}

/// Framing succeeds: a non-empty point set, a camera basis that exists
/// for the centroid, and no point at zero eye-space depth.
pub open spec fn frame_ok_s(pos: V3s, up: V3s, s: Seq<V3s>) -> bool {
    &&& s.len() >= 1
    &&& look_at_ok(pos, centroid_s(s), up)
    &&& points_ok_s(look_at_s(pos, centroid_s(s), up), s)
}

/// The look-at point of the virtual camera: the component-wise mean of
/// the scene points (a simple centroid, not a geometric median).
pub fn calculate_look_at(scene_points: &Vec<Vec3>) -> (r: Vec3)
    requires
        1 <= scene_points.len() <= 1_000_000_000,
    ensures
        r@ == centroid_s(scene_points@.map_values(|p: Vec3| p@)),
{
    let ghost mapped: Seq<V3s> = scene_points@.map_values(|p: Vec3| p@);
    let mut sx: i64 = 0;
    let mut sy: i64 = 0;
    let mut sz: i64 = 0;
    let n: usize = scene_points.len();
    let mut i: usize = 0;
    while i < n
        invariant
            0 <= i <= n,
            n == scene_points.len() <= 1_000_000_000,
            mapped == scene_points@.map_values(|p: Vec3| p@),
            sx as int == sum_x_s(mapped.take(i as int)),
            sy as int == sum_y_s(mapped.take(i as int)),
            sz as int == sum_z_s(mapped.take(i as int)),
        decreases n - i,
    {
        proof {
            assert(mapped.take(i as int + 1).drop_last() =~= mapped.take(i as int));
            assert(mapped.take(i as int + 1).last() == mapped[i as int]);
        }
        sx = fx_add(sx, scene_points[i].x);
        sy = fx_add(sy, scene_points[i].y);
        sz = fx_add(sz, scene_points[i].z);
        i = i + 1;
    }
    proof {
        assert(mapped.take(n as int) =~= mapped);
    }
    Vec3 {
        x: tdiv_small(sx, n as i64),
        y: tdiv_small(sy, n as i64),
        z: tdiv_small(sz, n as i64),
    }
}

impl VirtualCamera {
    /// Derive the look-at point and vertical field of view from the
    /// scene points, moving the camera to the framed state.  Fails on an
    /// empty point set, a degenerate camera basis, or a scene point at
    /// zero eye-space depth.
    pub fn frame(&self, scene_points: &Vec<Vec3>) -> (r: Result<FramedCamera, GeometryError>)
        requires
            scene_points.len() <= 1_000_000_000,
        ensures
            r is Ok <==> frame_ok_s(
                self.position@,
                self.up_dir@,
                scene_points@.map_values(|p: Vec3| p@),
            ),
            r matches Ok(c) ==> {
                let s = scene_points@.map_values(|p: Vec3| p@);
                &&& c.position == self.position
                &&& c.up_dir == self.up_dir
                &&& c.look_at@ == centroid_s(s)
                &&& c.fov as int == fov_s(look_at_s(self.position@, centroid_s(s), self.up_dir@), s)
            },
            scene_points@.len() == 0 ==> r == Err::<FramedCamera, GeometryError>(
                GeometryError::EmptyScene,
            ),
            r matches Err(e) ==> (e == GeometryError::EmptyScene || e
                == GeometryError::DegenerateCamera || e == GeometryError::ZeroEyeDepth),
    {
        let ghost mapped: Seq<V3s> = scene_points@.map_values(|p: Vec3| p@);
        if scene_points.len() == 0 {
            return Err(GeometryError::EmptyScene);
        }
        let center: Vec3 = calculate_look_at(scene_points);
        let view: Mat4 = match look_at(&self.position, &center, &self.up_dir) {
            Ok(m) => m,
            Err(e) => {
                return Err(e);
            },
        };
        let n: usize = scene_points.len();
        let mut max_rad: i64 = -FX_ONE;
        let mut i: usize = 0;
        while i < n
            invariant
                0 <= i <= n,
                n == scene_points.len(),
                mapped == scene_points@.map_values(|p: Vec3| p@),
                view@ == look_at_s(self.position@, centroid_s(mapped), self.up_dir@),
                max_rad as int == max_half_angle_s(view@, mapped.take(i as int)),
                points_ok_s(view@, mapped.take(i as int)),
            decreases n - i,
        {
            proof {
                assert(mapped.take(i as int + 1).drop_last() =~= mapped.take(i as int));
                assert(mapped.take(i as int + 1).last() == mapped[i as int]);
            }
            let eye_rel: Vec4 = mul_v4(&view, &scene_points[i].extend(FX_ONE));
            if eye_rel.z == 0 {
                proof {
                    assert(eye_space_s(view@, mapped[i as int]).z == 0);
                    assert(!points_ok_s(view@, mapped));
                }
                return Err(GeometryError::ZeroEyeDepth);
            }
            let ay: i64 = fx_abs(eye_rel.y);
            let az: i64 = fx_abs(eye_rel.z);
            proof {
                assert(iabs(eye_rel.z as int) >= 1);
            }
            let rad: i64 = atan_ratio(ay, az);
            if rad > max_rad {
                max_rad = rad;
            }
            proof {
                assert(forall|j: int|
                    0 <= j < i as int + 1 ==> #[trigger] eye_space_s(
                        view@,
                        mapped.take(i as int + 1)[j],
                    ).z != 0);
            }
            i = i + 1;
        }
        proof {
            assert(mapped.take(n as int) =~= mapped);
        }
        let deg: i64 = to_degrees(max_rad);
        let fov: i64 = tdiv_small(fx_scale(deg, 21), 10);
        Ok(FramedCamera { position: self.position, look_at: center, up_dir: self.up_dir, fov })
    }
}

/// Truncating division is monotone in the numerator, for a positive
/// divisor.
proof fn lemma_tdiv_mono(a: int, b: int, c: int)
    requires
        a <= b,
        c > 0,
    ensures
        tdiv(a, c) <= tdiv(b, c),
{
    if a >= 0 {
        lemma_div_is_ordered(a, b, c);
    } else if b >= 0 {
        lemma_div_is_ordered(0, -a, c);
        lemma_div_is_ordered(0, b, c);
        assert(0int / c == 0) by (nonlinear_arith)
            requires
                c > 0,
        ;
    } else {
        lemma_div_is_ordered(-b, -a, c);
    }
}

/// The fixed-point product with a non-negative factor is monotone.
proof fn lemma_fxm_mono(a: int, b: int, c: int)
    requires
        a <= b,
        c >= 0,
    ensures
        fxm(a, c) <= fxm(b, c),
{
    assert(a * c <= b * c) by (nonlinear_arith)
        requires
            a <= b,
            c >= 0,
    ;
    lemma_tdiv_mono(a * c, b * c, FX_ONE as int);
}

/// Adding a scene point never decreases the framed field of view, for a
/// fixed camera basis: the largest eye-space half-angle over the grown
/// set is at least the largest over the original set, and the derived
/// field of view grows with it.
pub proof fn lemma_fov_monotone(view: M4s, s: Seq<V3s>, p: V3s)
    ensures
        max_half_angle_s(view, s.push(p)) >= max_half_angle_s(view, s),
        fov_s(view, s.push(p)) >= fov_s(view, s),
{
    assert(s.push(p).drop_last() =~= s);
    assert(s.push(p).last() == p);
    let m1 = max_half_angle_s(view, s);
    let m2 = max_half_angle_s(view, s.push(p));
    assert(m2 >= m1);
    lemma_fxm_mono(m1, m2, RAD_TO_DEG as int);
    let d1 = to_degrees_s(m1);
    let d2 = to_degrees_s(m2);
    assert(d1 * 21 <= d2 * 21) by (nonlinear_arith)
        requires
            d1 <= d2,
    ;
    lemma_tdiv_mono(sat64(d1 * 21), sat64(d2 * 21), 10);
}

} // verus!
