//! Framing, warp generation, document assembly and marker localization
//! on concrete values.

use aligner::camera::{calculate_look_at, VirtualCamera};
use aligner::camera_calibration::Calibration;
use aligner::errors::{AlignError, DetectionError, GeometryError};
use aligner::fixed::FX_ONE;
use aligner::locator::{locate_aruco_marker, rodrigues, update_physical_camera_location,
    CameraLocation};
use aligner::mat::{inverse, Mat3, Mat4};
use aligner::output::build_calibration_output;
use aligner::surfaces::{HemisphericalDome, SurfaceType};
use aligner::vec::{ImagePoint, Vec3, Vec4};
use aligner::warp::{generate_uv_warp, Projector, WarpEntry};
use aligner::{produce_calibration, PhysicalCamera, WarpResolution};

fn fx(x: f64) -> i64 {
    (x * 1e9).round() as i64
}

fn grid_camera() -> PhysicalCamera {
    let m = Mat3 {
        c0: Vec3 { x: fx(50.0), y: 0, z: 0 },
        c1: Vec3 { x: 0, y: fx(50.0), z: 0 },
        c2: Vec3 { x: fx(50.0), y: fx(50.0), z: FX_ONE },
    };
    PhysicalCamera {
        position: Vec3 { x: 0, y: 0, z: 0 },
        look_at: Vec3 { x: 0, y: FX_ONE, z: 0 },
        up_dir: Vec3 { x: 0, y: 0, z: FX_ONE },
        calibration: Calibration::new(m, vec![], 100, 100).unwrap(),
    }
}

fn grid_points() -> Vec<ImagePoint> {
    let mut points = Vec::new();
    for gy in 0..3 {
        for gx in 0..3 {
            points.push(ImagePoint {
                x: fx(25.0 * (gx + 1) as f64),
                y: fx(25.0 * (gy + 1) as f64),
            });
        }
    }
    points
}

#[test]
fn centroid_is_the_component_wise_mean() {
    let pts = vec![
        Vec3 { x: fx(1.0), y: fx(2.0), z: fx(3.0) },
        Vec3 { x: fx(3.0), y: fx(-2.0), z: fx(0.0) },
    ];
    let c = calculate_look_at(&pts);
    assert_eq!(c, Vec3 { x: fx(2.0), y: 0, z: fx(1.5) });
}

#[test]
fn framing_fails_on_an_empty_scene() {
    let vc = VirtualCamera {
        position: Vec3 { x: 0, y: 0, z: 0 },
        up_dir: Vec3 { x: 0, y: 0, z: FX_ONE },
    };
    assert_eq!(vc.frame(&Vec::new()).unwrap_err(), GeometryError::EmptyScene);
}

#[test]
fn framing_fails_on_a_point_at_zero_eye_depth() {
    // The first point sits exactly in the eye plane of the derived view,
    // so its eye-space depth is zero.
    let vc = VirtualCamera {
        position: Vec3 { x: 0, y: 0, z: 0 },
        up_dir: Vec3 { x: 0, y: FX_ONE, z: 0 },
    };
    let pts = vec![
        Vec3 { x: 0, y: fx(5.0), z: 0 },
        Vec3 { x: 0, y: fx(-5.0), z: FX_ONE },
    ];
    assert_eq!(vc.frame(&pts).unwrap_err(), GeometryError::ZeroEyeDepth);
}

#[test]
fn a_singular_matrix_has_no_inverse() {
    let zero = Vec4 { x: 0, y: 0, z: 0, w: 0 };
    let m = Mat4 { c0: zero, c1: zero, c2: zero, c3: zero };
    assert_eq!(inverse(&m).unwrap_err(), GeometryError::SingularProjection);
}

#[test]
fn a_farther_point_never_shrinks_the_fov() {
    let vc = VirtualCamera {
        position: Vec3 { x: 0, y: 0, z: 0 },
        up_dir: Vec3 { x: 0, y: 0, z: FX_ONE },
    };
    let base = vec![
        Vec3 { x: fx(1.0), y: fx(5.0), z: 0 },
        Vec3 { x: fx(-1.0), y: fx(5.0), z: 0 },
    ];
    let framed1 = vc.frame(&base).unwrap();
    let mut grown = base.clone();
    grown.push(Vec3 { x: 0, y: fx(5.0), z: fx(2.0) });
    let framed2 = vc.frame(&grown).unwrap();
    assert!(framed2.fov >= framed1.fov);
    assert!(framed2.fov > 0);
}

#[test]
fn the_look_at_point_projects_to_the_screen_center() {
    let surface = SurfaceType::HemisphericalDome(HemisphericalDome { radius: fx(5.0) });
    let cam = grid_camera();
    let scene = aligner::locate_scene_coords(&surface, &cam, &grid_points()).unwrap();
    let vc = VirtualCamera {
        position: Vec3 { x: 0, y: 0, z: 0 },
        up_dir: Vec3 { x: 0, y: 0, z: FX_ONE },
    };
    let framed = vc.frame(&scene).unwrap();
    let uv = framed
        .project_scene_point(&framed.look_at.clone(), fx(1920.0 / 1080.0))
        .unwrap();
    assert!((uv.u - fx(0.5)).abs() <= fx(0.001), "u = {}", uv.u);
    assert!((uv.v - fx(0.5)).abs() <= fx(0.001), "v = {}", uv.v);
    assert!(0 <= uv.u && uv.u <= FX_ONE && 0 <= uv.v && uv.v <= FX_ONE);
}

#[test]
fn the_warp_is_parallel_to_the_scene_points() {
    let surface = SurfaceType::HemisphericalDome(HemisphericalDome { radius: fx(5.0) });
    let cam = grid_camera();
    let scene = aligner::locate_scene_coords(&surface, &cam, &grid_points()).unwrap();
    let vc = VirtualCamera {
        position: Vec3 { x: 0, y: 0, z: 0 },
        up_dir: Vec3 { x: 0, y: 0, z: FX_ONE },
    };
    let framed = vc.frame(&scene).unwrap();
    let projector = Projector { resolution_x: 1920, resolution_y: 1080 };
    let warp = generate_uv_warp(&scene, &framed, &projector).unwrap();
    assert_eq!(warp.len(), scene.len());
    // The center scene point is the one under the centroid's column: its
    // UV must match the directly projected value.
    let direct = framed
        .project_scene_point(&scene[4], projector.aspect_ratio())
        .unwrap();
    assert_eq!(warp[4], direct);
}

#[test]
fn produce_calibration_assembles_the_document() {
    let surface = SurfaceType::HemisphericalDome(HemisphericalDome { radius: fx(5.0) });
    let cam = grid_camera();
    let vc = VirtualCamera {
        position: Vec3 { x: 0, y: 0, z: 0 },
        up_dir: Vec3 { x: 0, y: 0, z: FX_ONE },
    };
    let projector = Projector { resolution_x: 1920, resolution_y: 1080 };
    let points = grid_points();
    let warp_res = WarpResolution { width: 3, height: 3 };
    let out = produce_calibration(&surface, &cam, &vc, &projector, &points, warp_res).unwrap();
    assert_eq!(out.warp_res_x, 3);
    assert_eq!(out.warp_res_y, 3);
    assert_eq!(out.warp.len(), 9);
    assert_eq!(out.eye, Vec3 { x: 0, y: 0, z: 0 });
    assert_eq!(out.look_at.x, 0);
    assert_eq!(out.look_at.z, 0);
    assert!(out.look_at.y > fx(3.0) && out.look_at.y < fx(5.0));
    assert!(out.fov > 0);
}

#[test]
fn produce_calibration_rejects_a_wrong_point_count() {
    let surface = SurfaceType::HemisphericalDome(HemisphericalDome { radius: fx(5.0) });
    let cam = grid_camera();
    let vc = VirtualCamera {
        position: Vec3 { x: 0, y: 0, z: 0 },
        up_dir: Vec3 { x: 0, y: 0, z: FX_ONE },
    };
    let projector = Projector { resolution_x: 1920, resolution_y: 1080 };
    let points = grid_points();
    let warp_res = WarpResolution { width: 4, height: 3 };
    let e = produce_calibration(&surface, &cam, &vc, &projector, &points, warp_res).unwrap_err();
    assert_eq!(e, AlignError::Detection(DetectionError::IncompleteCornerSet));
}

#[test]
fn the_builder_checks_the_warp_length() {
    let vc = VirtualCamera {
        position: Vec3 { x: 0, y: 0, z: 0 },
        up_dir: Vec3 { x: 0, y: 0, z: FX_ONE },
    };
    let base = vec![
        Vec3 { x: fx(1.0), y: fx(5.0), z: 0 },
        Vec3 { x: fx(-1.0), y: fx(5.0), z: fx(0.5) },
    ];
    let framed = vc.frame(&base).unwrap();
    let warp = vec![WarpEntry { u: 0, v: 0 }, WarpEntry { u: FX_ONE, v: FX_ONE }];
    let res = WarpResolution { width: 2, height: 1 };
    let out = build_calibration_output(&framed, res, warp.clone()).unwrap();
    assert_eq!(out.warp.len(), 2);
    let bad = WarpResolution { width: 2, height: 2 };
    assert_eq!(
        build_calibration_output(&framed, bad, warp).unwrap_err(),
        DetectionError::IncompleteCornerSet
    );
}

#[test]
fn rodrigues_of_zero_is_the_identity() {
    let m = rodrigues(&Vec3 { x: 0, y: 0, z: 0 });
    assert_eq!(m.c0, Vec3 { x: FX_ONE, y: 0, z: 0 });
    assert_eq!(m.c1, Vec3 { x: 0, y: FX_ONE, z: 0 });
    assert_eq!(m.c2, Vec3 { x: 0, y: 0, z: FX_ONE });
}

#[test]
fn rodrigues_quarter_turn_about_z() {
    // A rotation of pi/2 about the Z axis sends X to Y.
    let m = rodrigues(&Vec3 { x: 0, y: 0, z: 1_570_796_327 });
    assert!(m.c0.x.abs() <= 10_000);
    assert!((m.c0.y - FX_ONE).abs() <= 10_000);
    assert!((m.c1.x + FX_ONE).abs() <= 10_000);
    assert!(m.c1.y.abs() <= 10_000);
    assert!((m.c2.z - FX_ONE).abs() <= 10_000);
}

#[test]
fn marker_pose_resolves_to_fixed_values() {
    // Identity rotation, marker one unit in front of the camera along
    // the detector's +Z: after axis conversion and the 180-degree fixup
    // the camera sits at (0, 0, 1) looking along +Z with up (0, -1, 0).
    let rvecs = vec![Vec3 { x: 0, y: 0, z: 0 }];
    let tvecs = vec![Vec3 { x: 0, y: 0, z: fx(-1.0) }];
    let loc = locate_aruco_marker(&rvecs, &tvecs, fx(90.0)).unwrap();
    assert_eq!(loc.position, Vec3 { x: 0, y: 0, z: FX_ONE });
    assert_eq!(loc.direction, Vec3 { x: 0, y: 0, z: FX_ONE });
    assert_eq!(loc.up, Vec3 { x: 0, y: -FX_ONE, z: 0 });
    assert_eq!(loc.fov, fx(90.0));
    // Byte-for-byte reproducible across runs.
    let again = locate_aruco_marker(&rvecs, &tvecs, fx(90.0)).unwrap();
    assert_eq!(loc, again);
}

#[test]
fn marker_counts_other_than_one_fail() {
    let none: Vec<Vec3> = Vec::new();
    assert_eq!(
        locate_aruco_marker(&none, &none, fx(90.0)).unwrap_err(),
        DetectionError::NoMarkers
    );
    let two = vec![Vec3 { x: 0, y: 0, z: 0 }, Vec3 { x: 0, y: 0, z: 0 }];
    let t2 = vec![Vec3 { x: 0, y: 0, z: fx(-1.0) }, Vec3 { x: 0, y: 0, z: fx(-1.0) }];
    assert_eq!(
        locate_aruco_marker(&two, &t2, fx(90.0)).unwrap_err(),
        DetectionError::MultipleMarkers
    );
}

#[test]
fn a_location_document_overwrites_the_pose() {
    let mut cam = grid_camera();
    let loc = CameraLocation {
        position: Vec3 { x: fx(1.0), y: fx(2.0), z: fx(3.0) },
        direction: Vec3 { x: 0, y: 0, z: -FX_ONE },
        up: Vec3 { x: 0, y: FX_ONE, z: 0 },
        fov: fx(75.0),
    };
    update_physical_camera_location(&mut cam, &loc);
    assert_eq!(cam.position, loc.position);
    assert_eq!(cam.look_at, loc.direction);
    assert_eq!(cam.up_dir, loc.up);
    assert_eq!(cam.calibration.image_width, 100);
}
