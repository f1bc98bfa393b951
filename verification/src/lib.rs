//! A deferred image-transform pipeline.
//!
//! A builder accumulates geometric and compositing operations (scale, crop,
//! center-crop, pad, flip, rotate, overlay) against a source image, tracks
//! the resulting dimensions symbolically without touching pixels, and later
//! renders the whole sequence into a pixel buffer or an encoded image.
//!
//! The dimension model, the builder's validation, the render engine's
//! orchestration and the encoder dispatch are verified; the pixel-level work
//! (resampling, codecs, alpha blending) is delegated to the `image` crate
//! through a small set of trusted wrappers.
pub mod codec;
pub mod dims;
pub mod laws;
pub mod ops;
pub mod pixels;
pub mod render;
pub mod transformer;
pub mod types;
