//! Plain data types shared across the pipeline: pixel and container formats,
//! resize and rotation policies, colors, dimension records, and the error
//! taxonomy.
use vstd::prelude::*;

verus! {

/// Raw pixel layouts a source buffer or a rendered target may use.
#[derive(Clone, Copy, PartialEq, Eq, Structural, Debug)]
pub enum PixelFormat {
    #[allow(non_camel_case_types)]
    rgba,
    #[allow(non_camel_case_types)]
    rgb,
}

/// Container formats for encoded images.
#[derive(Clone, Copy, PartialEq, Eq, Structural, Debug)]
pub enum ImageFormat {
    #[allow(non_camel_case_types)]
    jpeg,
    #[allow(non_camel_case_types)]
    webp,
    #[allow(non_camel_case_types)]
    png,
}

/// Policy for a scale step when the source and target aspect ratios differ.
#[derive(Clone, Copy, PartialEq, Eq, Structural, Debug)]
pub enum ResizeMode {
    Exact,
    Fill,
    Fit,
}

/// Clockwise rotation amounts.
#[derive(Clone, Copy, PartialEq, Eq, Structural, Debug)]
pub enum RotationMode {
    CW90,
    CW180,
    CW270,
}

/// A width/height pair, as reported by dimension queries.
#[derive(Clone, Copy, PartialEq, Eq, Structural, Debug)]
pub struct ImageInfo {
    pub width: u32,
    pub height: u32,
}

/// An RGBA color, used as the fill color of a pad step.
#[derive(Clone, Copy, PartialEq, Eq, Structural, Debug)]
pub struct RgbaValue {
    pub red: u8,
    pub green: u8,
    pub blue: u8,
    pub alpha: u8,
}

/// A bundle of optional transform settings, as a host binding may pass them.
#[derive(Clone, Copy, PartialEq, Eq, Structural, Debug)]
pub struct TransformOptions {
    pub scale_mode: Option<ResizeMode>,
    pub flip_h: Option<bool>,
    pub flip_v: Option<bool>,
    pub rotation: Option<RotationMode>,
}

/// Everything that can go wrong while building or rendering a spec.
///
/// Builder appends return `InvalidDimensions` or `OutOfBounds` and leave the
/// spec unchanged; rendering reports `InvalidPixelBuffer` or `DecodeError`
/// for a bad source, `CompositeFailure` for a failed pixel copy, and
/// `EncodeError` (with the codec's message) for a failed serialization.
#[derive(Clone, PartialEq, Eq, Debug)]
pub enum TransformError {
    InvalidDimensions,
    OutOfBounds,
    InvalidPixelBuffer,
    DecodeError,
    CompositeFailure,
    EncodeError(String),
}

impl TransformError {
    /// A short human-readable description of the error.
    pub fn message(&self) -> &str {
        match self {
            TransformError::InvalidDimensions => "Invalid dimensions",
            TransformError::OutOfBounds => {
                "Overlay image is completely outside the bounds of the base image"
            },
            TransformError::InvalidPixelBuffer => "Invalid pixel buffer",
            TransformError::DecodeError => "Failed to decode image from buffer",
            TransformError::CompositeFailure => "Failed to perform pixel copy",
            TransformError::EncodeError(s) => s.as_str(),
        }
    }
}

} // verus!
