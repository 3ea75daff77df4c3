//! Error taxonomy of the calibration pipeline.
//!
//! Fatal conditions fall into four kinds: geometric impossibilities,
//! malformed calibration input, detection failures, and malformed
//! configuration strings.  Every error carries a descriptive, user-facing
//! message.

use vstd::prelude::*;

verus! {

/// A point or pose that admits no geometric solution.
#[derive(Clone, Copy, Debug, PartialEq, Eq, Structural)]
pub enum GeometryError {
    /// The normalized radial distance of the image point exceeds 1: the
    /// point lies outside the dome's circular image footprint.
    PointOutsideDome,
    /// A projective transform produced a zero homogeneous weight or a
    /// singular matrix.
    SingularProjection,
    /// A scene point sits at zero eye-space depth while framing the
    /// virtual camera's field of view.
    ZeroEyeDepth,
    /// The camera basis is degenerate: the viewing direction has zero
    /// length or is parallel to the up vector.
    DegenerateCamera,
    /// The scene-point set is empty, so no camera can be framed.
    EmptyScene,
}

/// The description of each geometric failure.
pub open spec fn geometry_message_s(e: GeometryError) -> Seq<char> {
    match e {
        GeometryError::PointOutsideDome => "point lies outside of the dome"@,
        GeometryError::SingularProjection => "projective transform is singular"@,
        GeometryError::ZeroEyeDepth => "scene point at zero eye-space depth"@,
        GeometryError::DegenerateCamera => "camera basis is degenerate"@,
        GeometryError::EmptyScene => "no scene points to frame"@,
    }
}

impl GeometryError {
    /// A user-facing description of the failure.
    pub fn message(&self) -> (r: &'static str)
        ensures
            r@ == geometry_message_s(*self),
    {
        match self {
            GeometryError::PointOutsideDome => "point lies outside of the dome",
            GeometryError::SingularProjection => "projective transform is singular",
            GeometryError::ZeroEyeDepth => "scene point at zero eye-space depth",
            GeometryError::DegenerateCamera => "camera basis is degenerate",
            GeometryError::EmptyScene => "no scene points to frame",
        }
    }
}

/// Malformed or missing fields in the calibration input.
#[derive(Clone, Copy, Debug, PartialEq, Eq, Structural)]
pub enum InputFormatError {
    /// The focal length read from the camera matrix is not positive.
    BadFocalLength,
    /// The image width or height is not positive.
    BadImageSize,
}

/// The description of each input-format failure.
pub open spec fn input_format_message_s(e: InputFormatError) -> Seq<char> {
    match e {
        InputFormatError::BadFocalLength => "camera matrix holds a non-positive focal length"@,
        InputFormatError::BadImageSize => "image width and height must be positive"@,
    }
}

impl InputFormatError {
    /// A user-facing description of the failure.
    pub fn message(&self) -> (r: &'static str)
        ensures
            r@ == input_format_message_s(*self),
    {
        match self {
            InputFormatError::BadFocalLength => "camera matrix holds a non-positive focal length",
            InputFormatError::BadImageSize => "image width and height must be positive",
        }
    }
}

/// A detector handed back an unusable result.
#[derive(Clone, Copy, Debug, PartialEq, Eq, Structural)]
pub enum DetectionError {
    /// The detected corner set does not match the pattern size.
    IncompleteCornerSet,
    /// No marker was detected in the frame.
    NoMarkers,
    /// More than one marker was detected in the frame.
    MultipleMarkers,
}

/// The description of each detection failure.
pub open spec fn detection_message_s(e: DetectionError) -> Seq<char> {
    match e {
        DetectionError::IncompleteCornerSet => "complete set of chessboard corners not detected"@,
        DetectionError::NoMarkers => "no markers detected"@,
        DetectionError::MultipleMarkers => "multiple markers detected"@,
    }
}

impl DetectionError {
    /// A user-facing description of the failure.
    pub fn message(&self) -> (r: &'static str)
        ensures
            r@ == detection_message_s(*self),
    {
        match self {
            DetectionError::IncompleteCornerSet => "complete set of chessboard corners not detected",
            DetectionError::NoMarkers => "no markers detected",
            DetectionError::MultipleMarkers => "multiple markers detected",
        }
    }
}

/// A malformed configuration string.
#[derive(Clone, Copy, Debug, PartialEq, Eq, Structural)]
pub enum ConfigError {
    /// A resolution string is not of the form `<width>x<height>`.
    BadResolution,
    /// A vector string is not up to three comma-separated decimals.
    BadVector,
    /// A surface name is neither `dome` nor `wall`.
    BadSurface,
}

/// The description of each configuration failure.
pub open spec fn config_message_s(e: ConfigError) -> Seq<char> {
    match e {
        ConfigError::BadResolution => "resolution must be of the form <width>x<height>"@,
        ConfigError::BadVector => "vector must be up to three comma-separated decimals"@,
        ConfigError::BadSurface => "surface type must be dome or wall"@,
    }
}

impl ConfigError {
    /// A user-facing description of the failure.
    pub fn message(&self) -> (r: &'static str)
        ensures
            r@ == config_message_s(*self),
    {
        match self {
            ConfigError::BadResolution => "resolution must be of the form <width>x<height>",
            ConfigError::BadVector => "vector must be up to three comma-separated decimals",
            ConfigError::BadSurface => "surface type must be dome or wall",
        }
    }
}

/// Any fatal error of the warp pipeline.
#[derive(Clone, Copy, Debug, PartialEq, Eq, Structural)]
pub enum AlignError {
    /// A geometric failure.
    Geometry(GeometryError),
    /// A detection failure.
    Detection(DetectionError),
}

/// The description of each fatal warp-pipeline failure.
pub open spec fn align_message_s(e: AlignError) -> Seq<char> {
    match e {
        AlignError::Geometry(g) => geometry_message_s(g),
        AlignError::Detection(d) => detection_message_s(d),
    }
}

impl AlignError {
    /// A user-facing description of the failure.
    pub fn message(&self) -> (r: &'static str)
        ensures
            r@ == align_message_s(*self),
    {
        match self {
            AlignError::Geometry(e) => e.message(),
            AlignError::Detection(e) => e.message(),
        }
    }
}

} // verus!
