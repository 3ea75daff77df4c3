//! Configuration-string parsing on concrete values.

use aligner::errors::ConfigError;
use aligner::fixed::FX_ONE;
use aligner::parse::{parse_fixed, parse_vec3, surface_type};
use aligner::surfaces::SurfaceType;
use aligner::vec::Vec3;
use aligner::WarpResolution;

#[test]
fn resolution_strings_parse_exactly() {
    let r = WarpResolution::parse("25x16").unwrap();
    assert_eq!(r.width, 25);
    assert_eq!(r.height, 16);
    let r2 = WarpResolution::parse("1024x768").unwrap();
    assert_eq!(r2.width, 1024);
    assert_eq!(r2.height, 768);
}

#[test]
fn malformed_resolution_strings_fail() {
    assert_eq!(WarpResolution::parse("").unwrap_err(), ConfigError::BadResolution);
    assert_eq!(WarpResolution::parse("25").unwrap_err(), ConfigError::BadResolution);
    assert_eq!(WarpResolution::parse("25x").unwrap_err(), ConfigError::BadResolution);
    assert_eq!(WarpResolution::parse("x16").unwrap_err(), ConfigError::BadResolution);
    assert_eq!(WarpResolution::parse("25x16x9").unwrap_err(), ConfigError::BadResolution);
    assert_eq!(WarpResolution::parse("2a5x16").unwrap_err(), ConfigError::BadResolution);
}

#[test]
fn decimals_parse_to_billionths() {
    assert_eq!(parse_fixed("2.5").unwrap(), 2_500_000_000);
    assert_eq!(parse_fixed("5").unwrap(), 5 * FX_ONE);
    assert_eq!(parse_fixed("-0.25").unwrap(), -250_000_000);
    assert_eq!(parse_fixed("0.000000001").unwrap(), 1);
    assert_eq!(parse_fixed("123456789.987654321").unwrap(), 123_456_789_987_654_321);
}

#[test]
fn malformed_decimals_fail() {
    assert_eq!(parse_fixed("").unwrap_err(), ConfigError::BadVector);
    assert_eq!(parse_fixed("1.").unwrap_err(), ConfigError::BadVector);
    assert_eq!(parse_fixed(".5").unwrap_err(), ConfigError::BadVector);
    assert_eq!(parse_fixed("1e3").unwrap_err(), ConfigError::BadVector);
    assert_eq!(parse_fixed("--1").unwrap_err(), ConfigError::BadVector);
    assert_eq!(parse_fixed("1234567890").unwrap_err(), ConfigError::BadVector);
}

#[test]
fn vector_strings_parse_with_zero_fill() {
    assert_eq!(
        parse_vec3("1.5,-2,0.25").unwrap(),
        Vec3 { x: 1_500_000_000, y: -2_000_000_000, z: 250_000_000 }
    );
    assert_eq!(parse_vec3("0,0,2").unwrap(), Vec3 { x: 0, y: 0, z: 2 * FX_ONE });
    assert_eq!(parse_vec3("3").unwrap(), Vec3 { x: 3 * FX_ONE, y: 0, z: 0 });
    assert_eq!(parse_vec3("1,2").unwrap(), Vec3 { x: FX_ONE, y: 2 * FX_ONE, z: 0 });
}

#[test]
fn malformed_vector_strings_fail() {
    assert_eq!(parse_vec3("1,2,3,4").unwrap_err(), ConfigError::BadVector);
    assert_eq!(parse_vec3("1,,3").unwrap_err(), ConfigError::BadVector);
    assert_eq!(parse_vec3("a,b,c").unwrap_err(), ConfigError::BadVector);
    assert_eq!(parse_vec3("").unwrap_err(), ConfigError::BadVector);
}

#[test]
fn surface_names_select_the_variant() {
    match surface_type("dome", 5 * FX_ONE).unwrap() {
        SurfaceType::HemisphericalDome(d) => assert_eq!(d.radius, 5 * FX_ONE),
        SurfaceType::Wall(_) => panic!("expected a dome"),
    }
    assert!(matches!(surface_type("wall", 0).unwrap(), SurfaceType::Wall(_)));
    assert_eq!(surface_type("sphere", 0).unwrap_err(), ConfigError::BadSurface);
}
