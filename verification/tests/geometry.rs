//! Scalar, trigonometric and dome-surface behaviour on concrete values.

use aligner::fixed::{fx_add, fx_div, fx_mul, fx_sqrt, norm2, FX_LIMIT, FX_ONE};
use aligner::trig::{atan_ratio, cos_rad, sin_rad, to_degrees, to_radians, HALF_PI, PI};
use aligner::vec::{ImagePoint, Vec3, Vec4};
use aligner::camera_calibration::Calibration;
use aligner::errors::{GeometryError, InputFormatError};
use aligner::mat::{Mat3, Mat4, inverse, mul_m4};
use aligner::surfaces::{HemisphericalDome, SurfaceType, Wall};
use aligner::PhysicalCamera;

fn fx(x: f64) -> i64 {
    (x * 1e9).round() as i64
}

fn default_calibration() -> Calibration {
    let m = Mat3 {
        c0: Vec3 { x: fx(500.0), y: 0, z: 0 },
        c1: Vec3 { x: 0, y: fx(500.0), z: 0 },
        c2: Vec3 { x: fx(500.0), y: fx(500.0), z: FX_ONE },
    };
    Calibration::new(m, vec![0, 0, 0, 0, 0], 1000, 1000).unwrap()
}

fn dome_camera() -> PhysicalCamera {
    PhysicalCamera {
        position: Vec3 { x: 0, y: 0, z: 0 },
        look_at: Vec3 { x: 0, y: FX_ONE, z: 0 },
        up_dir: Vec3 { x: 0, y: 0, z: FX_ONE },
        calibration: default_calibration(),
    }
}

#[test]
fn fixed_point_products_are_exact() {
    assert_eq!(fx_mul(fx(3.5), fx(2.0)), fx(7.0));
    assert_eq!(fx_mul(fx(-1.5), fx(2.0)), fx(-3.0));
    assert_eq!(fx_div(FX_ONE, fx(3.0)), 333_333_333);
    assert_eq!(fx_add(FX_LIMIT, FX_LIMIT), FX_LIMIT);
    assert_eq!(fx_sqrt(fx(4.0)), fx(2.0));
    assert_eq!(norm2(fx(3.0), fx(4.0)), fx(5.0));
}

#[test]
fn sine_and_cosine_behave_on_the_quadrants() {
    assert_eq!(sin_rad(0), 0);
    assert!((sin_rad(HALF_PI) - FX_ONE).abs() <= 5_000);
    assert!(sin_rad(PI).abs() <= 5_000);
    assert!((cos_rad(0) - FX_ONE).abs() <= 5_000);
    assert!(cos_rad(HALF_PI).abs() <= 5_000);
    assert!((cos_rad(PI) + FX_ONE).abs() <= 5_000);
    let s = sin_rad(700_000_000);
    let c = cos_rad(700_000_000);
    let sq = (s as i128) * (s as i128) + (c as i128) * (c as i128);
    let unit = (FX_ONE as i128) * (FX_ONE as i128);
    assert!(sq <= unit && unit - sq <= 3 * FX_ONE as i128);
}

#[test]
fn arctangent_of_one_is_a_quarter_turn_halved() {
    let r = atan_ratio(FX_ONE, FX_ONE);
    assert!((r - 785_398_163).abs() <= 10_000);
    assert_eq!(atan_ratio(0, FX_ONE), 0);
    let steep = atan_ratio(fx(1000.0), FX_ONE);
    assert!(steep > fx(1.56) && steep <= HALF_PI);
}

#[test]
fn degree_conversions_match() {
    assert!((to_degrees(PI) - fx(180.0)).abs() <= 100);
    assert!((to_radians(fx(180.0)) - PI).abs() <= 100);
}

#[test]
fn calibration_derives_a_ninety_degree_fov() {
    // atan(1000 / (2 * 500)) = 45 degrees, doubled.
    let c = default_calibration();
    assert!((c.fov - fx(90.0)).abs() <= 2_000_000);
}

#[test]
fn calibration_rejects_bad_input() {
    let m = Mat3 {
        c0: Vec3 { x: fx(500.0), y: 0, z: 0 },
        c1: Vec3 { x: 0, y: 0, z: 0 },
        c2: Vec3 { x: 0, y: 0, z: FX_ONE },
    };
    assert_eq!(
        Calibration::new(m, vec![], 1000, 1000).unwrap_err(),
        InputFormatError::BadFocalLength
    );
    let m2 = Mat3 {
        c0: Vec3 { x: fx(500.0), y: 0, z: 0 },
        c1: Vec3 { x: 0, y: fx(500.0), z: 0 },
        c2: Vec3 { x: 0, y: 0, z: FX_ONE },
    };
    assert_eq!(
        Calibration::new(m2, vec![], 0, 1000).unwrap_err(),
        InputFormatError::BadImageSize
    );
}

#[test]
fn dome_center_maps_to_the_pole() {
    let dome = HemisphericalDome { radius: fx(5.0) };
    let cam = dome_camera();
    let pt = ImagePoint { x: fx(500.0), y: fx(500.0) };
    let p = dome
        .camera_to_scene(&cam, &cam.calibration, pt, 1000, 1000)
        .unwrap();
    assert_eq!(p, Vec3 { x: 0, y: fx(5.0), z: 0 });
}

#[test]
fn dome_rim_point_has_zero_height() {
    let dome = HemisphericalDome { radius: fx(5.0) };
    let cam = dome_camera();
    // Normalized x is exactly 1: the rim of the fisheye footprint.
    let pt = ImagePoint { x: fx(1000.0), y: fx(500.0) };
    let p = dome
        .camera_to_scene(&cam, &cam.calibration, pt, 1000, 1000)
        .unwrap();
    assert_eq!(p.y, 0);
    assert_eq!(p, Vec3 { x: 0, y: 0, z: fx(5.0) });
}

#[test]
fn dome_rejects_points_outside_the_footprint() {
    let dome = HemisphericalDome { radius: fx(5.0) };
    let cam = dome_camera();
    let pt = ImagePoint { x: fx(1000.0), y: fx(1000.0) };
    let e = dome
        .camera_to_scene(&cam, &cam.calibration, pt, 1000, 1000)
        .unwrap_err();
    assert_eq!(e, GeometryError::PointOutsideDome);
}

fn norm_sq(p: &Vec3) -> i128 {
    (p.x as i128) * (p.x as i128) + (p.y as i128) * (p.y as i128) + (p.z as i128) * (p.z as i128)
}

#[test]
fn dome_grid_points_lie_on_the_sphere() {
    // A synthetic 3x3 grid placed symmetrically around the center of a
    // 100x100 image, dome radius 5: every scene point sits at distance
    // (about) 5 from the center, the exact-center point at (0, 5, 0).
    let dome = HemisphericalDome { radius: fx(5.0) };
    let surface = SurfaceType::HemisphericalDome(dome);
    let cam = PhysicalCamera {
        position: Vec3 { x: 0, y: 0, z: 0 },
        look_at: Vec3 { x: 0, y: FX_ONE, z: 0 },
        up_dir: Vec3 { x: 0, y: 0, z: FX_ONE },
        calibration: {
            let m = Mat3 {
                c0: Vec3 { x: fx(50.0), y: 0, z: 0 },
                c1: Vec3 { x: 0, y: fx(50.0), z: 0 },
                c2: Vec3 { x: fx(50.0), y: fx(50.0), z: FX_ONE },
            };
            Calibration::new(m, vec![], 100, 100).unwrap()
        },
    };
    let mut points = Vec::new();
    for gy in 0..3 {
        for gx in 0..3 {
            points.push(ImagePoint { x: fx(25.0 * (gx + 1) as f64), y: fx(25.0 * (gy + 1) as f64) });
        }
    }
    let scene = aligner::locate_scene_coords(&surface, &cam, &points).unwrap();
    assert_eq!(scene.len(), 9);
    let r2 = (fx(5.0) as i128) * (fx(5.0) as i128);
    let tol = (fx(5.0) as i128) * 2_000_000;
    for p in &scene {
        let d = norm_sq(p) - r2;
        assert!(d.abs() <= tol, "|p|^2 = {} too far from 25", norm_sq(p));
    }
    assert_eq!(scene[4], Vec3 { x: 0, y: fx(5.0), z: 0 });
}

#[test]
fn wall_maps_the_center_pixel_to_the_origin() {
    // Camera at (0, 0, 2) looking at the origin.  With the up vector
    // (0, 1, 0) the principal point of the undistorted image maps to the
    // wall point (0, 0, 0) within tolerance.
    let wall = Wall {};
    let cam = PhysicalCamera {
        position: Vec3 { x: 0, y: 0, z: fx(2.0) },
        look_at: Vec3 { x: 0, y: 0, z: 0 },
        up_dir: Vec3 { x: 0, y: FX_ONE, z: 0 },
        calibration: default_calibration(),
    };
    let pt = ImagePoint { x: fx(500.0), y: fx(500.0) };
    let p = wall
        .camera_to_scene(&cam, &cam.calibration, pt, 1000, 1000)
        .unwrap();
    assert!(p.x.abs() <= fx(0.05), "x = {}", p.x);
    assert!(p.y.abs() <= fx(0.05), "y = {}", p.y);
    assert!(p.z.abs() <= fx(0.05), "z = {}", p.z);
}

#[test]
fn wall_rejects_an_up_vector_parallel_to_the_view() {
    // Looking from (0, 0, 2) at the origin with up (0, 0, 1): the up
    // vector is parallel to the viewing direction, so no camera basis
    // exists.
    let wall = Wall {};
    let cam = PhysicalCamera {
        position: Vec3 { x: 0, y: 0, z: fx(2.0) },
        look_at: Vec3 { x: 0, y: 0, z: 0 },
        up_dir: Vec3 { x: 0, y: 0, z: FX_ONE },
        calibration: default_calibration(),
    };
    let pt = ImagePoint { x: fx(500.0), y: fx(500.0) };
    let e = wall
        .camera_to_scene(&cam, &cam.calibration, pt, 1000, 1000)
        .unwrap_err();
    assert_eq!(e, GeometryError::DegenerateCamera);
}

#[test]
fn matrix_inverse_undoes_the_matrix() {
    // A well-conditioned matrix times its inverse is the identity within
    // fixed-point rounding.
    let m = Mat4 {
        c0: Vec4 { x: fx(1.0), y: fx(0.5), z: 0, w: 0 },
        c1: Vec4 { x: 0, y: fx(2.0), z: 0, w: 0 },
        c2: Vec4 { x: fx(0.25), y: 0, z: fx(1.0), w: 0 },
        c3: Vec4 { x: fx(3.0), y: fx(-1.0), z: fx(2.0), w: fx(1.0) },
    };
    let inv = inverse(&m).unwrap();
    let prod = mul_m4(&m, &inv);
    let tol = 50;
    assert!((prod.c0.x - FX_ONE).abs() <= tol);
    assert!((prod.c1.y - FX_ONE).abs() <= tol);
    assert!((prod.c2.z - FX_ONE).abs() <= tol);
    assert!((prod.c3.w - FX_ONE).abs() <= tol);
    assert!(prod.c1.x.abs() <= tol && prod.c2.x.abs() <= tol && prod.c3.x.abs() <= tol);
    assert!(prod.c0.y.abs() <= tol && prod.c2.y.abs() <= tol && prod.c3.y.abs() <= tol);
    assert!(prod.c0.z.abs() <= tol && prod.c1.z.abs() <= tol && prod.c3.z.abs() <= tol);
    assert!(prod.c0.w.abs() <= tol && prod.c1.w.abs() <= tol && prod.c2.w.abs() <= tol);
}
