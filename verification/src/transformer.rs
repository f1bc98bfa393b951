//! The public builder and execution front.
//!
//! An `ImageTransformer` wraps a transform spec: each append validates
//! eagerly against the currently tracked dimensions and leaves the spec
//! unchanged on failure; `to_buffer_sync` and `to_encoded_image_sync` run
//! the single render-then-encode pipeline (`compute_transform`), which an
//! asynchronous front can schedule on a worker unchanged.
use vstd::prelude::*;

use crate::codec::header_dims;
use crate::codec::encode_jpeg_rgb;
use crate::codec::encode_png_rgba;
use crate::codec::encode_webp_rgba;
use crate::codec::jpeg_encoded;
use crate::codec::png_encoded;
use crate::codec::read_header_dims;
use crate::codec::webp_encoded;
use crate::dims::dims_supported;
use crate::dims::spec_dims;
use crate::ops::CropCenterOp;
use crate::ops::CropOp;
use crate::ops::OpModel;
use crate::ops::PadOp;
use crate::ops::ScaleOp;
use crate::ops::SpecModel;
use crate::ops::TransformOps;
use crate::ops::TransformSpec;
use crate::ops::lemma_ops_model_push;
use crate::ops::with_op;
use crate::pixels::rgb_from_rgba;
use crate::pixels::rgba_buffer_to_rgb;
use crate::render::ImgModel;
use crate::render::RenderedImage;
use crate::render::img_wf;
use crate::render::render;
use crate::render::render_ready;
use crate::render::render_sem;
use crate::types::ImageFormat;
use crate::types::ImageInfo;
use crate::types::PixelFormat;
use crate::types::ResizeMode;
use crate::types::RgbaValue;
use crate::types::RotationMode;
use crate::types::TransformError;
use std::sync::Arc;

verus! {

/// The target representation of a render: a raw pixel layout, or an encoded
/// container with an optional JPEG quality on the codec's 0-100 scale.
#[derive(Clone, Copy)]
pub enum TargetFormat {
    PixelBuffer(PixelFormat),
    EncodedImage(ImageFormat, Option<u8>),
}

/// Options for encoding into a container format. `quality` is on the
/// codec's 0-100 scale, clamped to 100; it only affects lossy containers.
#[derive(Clone, Copy, PartialEq, Eq, Structural, Debug)]
pub struct EncodingOptions {
    pub quality: Option<u8>,
}

/// The result record of a render: bytes in the requested representation,
/// plus the final width and height.
#[derive(PartialEq, Eq, Debug)]
pub struct ComputedImage {
    pub buffer: Vec<u8>,
    pub width: u32,
    pub height: u32,
}

/// The raw result a scheduled render hands back before the host marshals
/// it.
#[derive(PartialEq, Eq, Debug)]
pub struct AsyncTransformResult {
    pub pixels: Vec<u8>,
    pub width: u32,
    pub height: u32,
}

/// The JPEG quality a render uses: the given quality clamped to 100, or 75
/// where none is given.
pub open spec fn spec_jpeg_quality(q: Option<u8>) -> u8 {
    match q {
        Some(v) => if v > 100 {
            100
        } else {
            v
        },
        None => 75,
    }
}

/// Clamp an optional quality to the codec's scale; omitted quality is 75.
pub fn effective_jpeg_quality(q: Option<u8>) -> (r: u8)
    ensures
        r == spec_jpeg_quality(q),
        q is None ==> r == 75,
        q == Some(0u8) ==> r == 0,
        (q matches Some(v) && v >= 100) ==> r == 100,
{
    match q {
        Some(v) => if v > 100 {
            100
        } else {
            v
        },
        None => 75,
    }
}

/// What encoding a rendered image into a target yields: the bytes, or
/// `None` where the codec reports an error. A raw RGBA8 target returns the
/// pixels verbatim; a raw RGB8 target drops the alpha channel; JPEG encodes
/// the alpha-stripped pixels at the effective quality.
pub open spec fn encode_ok(img: ImgModel, t: TargetFormat) -> Option<Seq<u8>> {
    match t {
        TargetFormat::PixelBuffer(PixelFormat::rgba) => Some(img.bytes),
        TargetFormat::PixelBuffer(PixelFormat::rgb) => Some(rgb_from_rgba(img.bytes)),
        TargetFormat::EncodedImage(ImageFormat::png, _) => png_encoded(
            img.bytes,
            img.width,
            img.height,
        ),
        TargetFormat::EncodedImage(ImageFormat::jpeg, q) => jpeg_encoded(
            rgb_from_rgba(img.bytes),
            img.width,
            img.height,
            spec_jpeg_quality(q),
        ),
        TargetFormat::EncodedImage(ImageFormat::webp, _) => webp_encoded(
            img.bytes,
            img.width,
            img.height,
        ),
    }
}

/// Serialize a rendered image into the requested representation. Raw
/// targets never fail; container targets fail exactly where the codec does,
/// reporting its message.
pub fn encode_image(img: &RenderedImage, target: &TargetFormat) -> (r: Result<
    Vec<u8>,
    TransformError,
>)
    requires
        img_wf(img@),
    ensures
        match r {
            Ok(v) => encode_ok(img@, *target) == Some(v@),
            Err(e) => encode_ok(img@, *target) is None && e matches TransformError::EncodeError(_),
        },
{
    proof {
        let ghost wi = img@.width as int;
        let ghost hi = img@.height as int;
        let ghost a = wi * hi;
        assert(4 * a == 4 * wi * hi && 3 * a == 3 * wi * hi && 0 <= a) by (nonlinear_arith)
            requires
                0 <= wi,
                0 <= hi,
                a == wi * hi,
        ;
        assert((4 * a) % 4 == 0 && (4 * a) / 4 == a) by (nonlinear_arith)
            requires
                0 <= a,
        ;
    }
    match target {
        TargetFormat::PixelBuffer(PixelFormat::rgba) => {
            let v = img.pixels.clone();
            proof {
                assert(v@ =~= img@.bytes);
            }
            Ok(v)
        },
        TargetFormat::PixelBuffer(PixelFormat::rgb) => Ok(rgba_buffer_to_rgb(&img.pixels)),
        TargetFormat::EncodedImage(fmt, q) => {
            match fmt {
                ImageFormat::png => {
                    match encode_png_rgba(&img.pixels, img.width, img.height) {
                        Ok(v) => Ok(v),
                        Err(s) => Err(TransformError::EncodeError(s)),
                    }
                },
                ImageFormat::jpeg => {
                    let rgb = rgba_buffer_to_rgb(&img.pixels);
                    let quality = effective_jpeg_quality(*q);
                    match encode_jpeg_rgb(&rgb, img.width, img.height, quality) {
                        Ok(v) => Ok(v),
                        Err(s) => Err(TransformError::EncodeError(s)),
                    }
                },
                ImageFormat::webp => {
                    match encode_webp_rgba(&img.pixels, img.width, img.height) {
                        Ok(v) => Ok(v),
                        Err(s) => Err(TransformError::EncodeError(s)),
                    }
                },
            }
        },
    }
}

/// Run the render-then-encode pipeline once for a spec and a target. Both
/// execution fronts (blocking and scheduled) go through this single
/// function, so they produce identical bytes for the same spec.
pub fn compute_transform(spec: &TransformSpec, target: &TargetFormat) -> (r: Result<
    AsyncTransformResult,
    TransformError,
>)
    requires
        render_ready(spec@),
    ensures
        match r {
            Ok(res) => {
                &&& render_sem(spec@) matches Ok(img)
                &&& render_sem(spec@)->Ok_0.width == res.width
                &&& render_sem(spec@)->Ok_0.height == res.height
                &&& encode_ok(render_sem(spec@)->Ok_0, *target) == Some(res.pixels@)
            },
            Err(e) => match render_sem(spec@) {
                Err(e2) => e == e2,
                Ok(img) => encode_ok(img, *target) is None && e
                    matches TransformError::EncodeError(_),
            },
        },
{
    let img = match render(spec) {
        Ok(img) => img,
        Err(e) => {
            return Err(e);
        },
    };
    let width = img.width;
    let height = img.height;
    let pixels = match encode_image(&img, target) {
        Ok(v) => v,
        Err(e) => {
            return Err(e);
        },
    };
    Ok(AsyncTransformResult { pixels, width, height })
}

/// The fluent builder: a transform spec under construction, with every
/// append validated against the currently tracked dimensions.
pub struct ImageTransformer {
    pub transformer: TransformSpec,
}

impl View for ImageTransformer {
    type V = SpecModel;

    open spec fn view(&self) -> SpecModel {
        self.transformer@
    }
}

impl ImageTransformer {
    /// Create a transformer from a raw pixel buffer of the given format and
    /// dimensions. The buffer is validated at render time.
    pub fn from_buffer(buffer: Vec<u8>, width: u32, height: u32, format: PixelFormat) -> (r: Self)
        ensures
            r@ == (SpecModel {
                bytes: buffer@,
                width,
                height,
                format: Some(format),
                ops: Seq::empty(),
            }),
    {
        let ops: Vec<TransformOps> = Vec::new();
        proof {
            assert(crate::ops::ops_model(ops@) =~= Seq::<OpModel>::empty());
        }
        ImageTransformer {
            transformer: TransformSpec {
                buffer: Arc::new(buffer),
                width,
                height,
                format: Some(format),
                ops,
            },
        }
    }

    /// Create a transformer from container-encoded bytes; the dimensions
    /// are read from the container header, and construction fails with
    /// `DecodeError` exactly when they cannot be.
    pub fn from_encoded_image(image: Vec<u8>) -> (r: Result<Self, TransformError>)
        ensures
            match r {
                Ok(t) => {
                    &&& header_dims(image@) matches Some(d)
                    &&& t@ == (SpecModel {
                        bytes: image@,
                        width: header_dims(image@)->Some_0.0,
                        height: header_dims(image@)->Some_0.1,
                        format: None,
                        ops: Seq::empty(),
                    })
                },
                Err(e) => header_dims(image@) is None && e == TransformError::DecodeError,
            },
    {
        match read_header_dims(&image) {
            Some((w, h)) => {
                let ops: Vec<TransformOps> = Vec::new();
                proof {
                    assert(crate::ops::ops_model(ops@) =~= Seq::<OpModel>::empty());
                }
                Ok(
                    ImageTransformer {
                        transformer: TransformSpec {
                            buffer: Arc::new(image),
                            width: w,
                            height: h,
                            format: None,
                            ops,
                        },
                    },
                )
            },
            None => Err(TransformError::DecodeError),
        }
    }

    /// A duplicate with the same model; the source bytes are shared.
    pub fn duplicate(&self) -> (r: Self)
        ensures
            r@ == self@,
    {
        ImageTransformer { transformer: self.transformer.duplicate() }
    }

    /// Whether a render of the current spec stays within machine limits;
    /// `render`'s and the execution fronts' precondition.
    pub fn is_renderable(&self) -> (r: bool)
        ensures
            r == render_ready(self@),
    {
        self.transformer.check_render_ready()
    }

    /// Append a scale step. Fails with `InvalidDimensions` exactly when a
    /// target dimension is zero; the spec is unchanged on failure. An
    /// omitted mode means `Exact`.
    pub fn scale(&mut self, width: u32, height: u32, mode: Option<ResizeMode>) -> (r: Result<
        (),
        TransformError,
    >)
        ensures
            match r {
                Ok(()) => 1 <= width && 1 <= height && final(self)@ == with_op(
                    old(self)@,
                    OpModel::Scale {
                        width,
                        height,
                        mode: match mode {
                            Some(m) => m,
                            None => ResizeMode::Exact,
                        },
                    },
                ),
                Err(e) => (width == 0 || height == 0) && e == TransformError::InvalidDimensions
                    && final(self)@ == old(self)@,
            },
    {
        if width == 0 || height == 0 {
            Err(TransformError::InvalidDimensions)
        } else {
            let m = match mode {
                Some(m) => m,
                None => ResizeMode::Exact,
            };
            let ghost prev = self.transformer.ops@;
            let op = TransformOps::Scale(ScaleOp { width, height, mode: m });
            self.transformer.ops.push(op);
            proof {
                lemma_ops_model_push(prev, op);
            }
            Ok(())
        }
    }

    /// Append a crop step with an explicit offset. Fails with
    /// `InvalidDimensions` exactly when a target dimension is zero or the
    /// rectangle reaches past the currently tracked size (a rectangle that
    /// exactly meets the edge is allowed); the spec is unchanged on failure.
    pub fn crop(&mut self, x: u32, y: u32, width: u32, height: u32) -> (r: Result<
        (),
        TransformError,
    >)
        requires
            dims_supported(old(self)@),
        ensures
            match r {
                Ok(()) => 1 <= width && 1 <= height && x + width <= spec_dims(old(self)@).0 && y
                    + height <= spec_dims(old(self)@).1 && final(self)@ == with_op(
                    old(self)@,
                    OpModel::Crop { x, y, width, height },
                ),
                Err(e) => (width == 0 || height == 0 || x + width > spec_dims(old(self)@).0 || y
                    + height > spec_dims(old(self)@).1) && e == TransformError::InvalidDimensions
                    && final(self)@ == old(self)@,
            },
    {
        let cur = self.transformer.get_current_size();
        if width == 0 || height == 0 || (x as u64) + (width as u64) > (cur.0 as u64) || (y as u64)
            + (height as u64) > (cur.1 as u64) {
            Err(TransformError::InvalidDimensions)
        } else {
            let ghost prev = self.transformer.ops@;
            let op = TransformOps::Crop(CropOp { x, y, width, height });
            self.transformer.ops.push(op);
            proof {
                lemma_ops_model_push(prev, op);
            }
            Ok(())
        }
    }

    /// Append a centered crop step. Fails with `InvalidDimensions` exactly
    /// when a target dimension is zero or exceeds the currently tracked
    /// size (a target equal to the tracked size is allowed); the spec is
    /// unchanged on failure.
    pub fn crop_center(&mut self, width: u32, height: u32) -> (r: Result<(), TransformError>)
        requires
            dims_supported(old(self)@),
        ensures
            match r {
                Ok(()) => 1 <= width && 1 <= height && width <= spec_dims(old(self)@).0 && height
                    <= spec_dims(old(self)@).1 && final(self)@ == with_op(
                    old(self)@,
                    OpModel::CropCenter { width, height },
                ),
                Err(e) => (width == 0 || height == 0 || width > spec_dims(old(self)@).0 || height
                    > spec_dims(old(self)@).1) && e == TransformError::InvalidDimensions
                    && final(self)@ == old(self)@,
            },
    {
        let cur = self.transformer.get_current_size();
        if width == 0 || height == 0 || width > cur.0 || height > cur.1 {
            Err(TransformError::InvalidDimensions)
        } else {
            let ghost prev = self.transformer.ops@;
            let op = TransformOps::CropCenter(CropCenterOp { width, height });
            self.transformer.ops.push(op);
            proof {
                lemma_ops_model_push(prev, op);
            }
            Ok(())
        }
    }

    /// Append a pad step; any margins, including all-zero ones, are legal.
    pub fn pad(&mut self, left: u32, right: u32, top: u32, bottom: u32, color: RgbaValue)
        ensures
            final(self)@ == with_op(
                old(self)@,
                OpModel::Pad { left, right, top, bottom, fill_color: color },
            ),
    {
        let ghost prev = self.transformer.ops@;
        let op = TransformOps::Pad(PadOp { left, right, top, bottom, fill_color: color });
        self.transformer.ops.push(op);
        proof {
            lemma_ops_model_push(prev, op);
        }
    }

    /// Append a vertical flip step.
    pub fn flip_vertical(&mut self)
        ensures
            final(self)@ == with_op(old(self)@, OpModel::FlipV),
    {
        let ghost prev = self.transformer.ops@;
        self.transformer.ops.push(TransformOps::FlipV);
        proof {
            lemma_ops_model_push(prev, TransformOps::FlipV);
        }
    }

    /// Append a horizontal flip step.
    pub fn flip_horizontal(&mut self)
        ensures
            final(self)@ == with_op(old(self)@, OpModel::FlipH),
    {
        let ghost prev = self.transformer.ops@;
        self.transformer.ops.push(TransformOps::FlipH);
        proof {
            lemma_ops_model_push(prev, TransformOps::FlipH);
        }
    }

    /// Append a rotation step.
    pub fn rotate(&mut self, rotation: RotationMode)
        ensures
            final(self)@ == with_op(old(self)@, OpModel::Rotate { mode: rotation }),
    {
        let ghost prev = self.transformer.ops@;
        let op = TransformOps::Rotate(rotation);
        self.transformer.ops.push(op);
        proof {
            lemma_ops_model_push(prev, op);
        }
    }

    /// Append an overlay step compositing another transformer's output at
    /// the anchor `(x, y)`. Fails with `OutOfBounds` exactly when the
    /// anchor lies off the currently tracked canvas; the far edge may
    /// reach past it, in which case the overlay is clipped per pixel at
    /// render time. The spec is unchanged on failure.
    pub fn overlay(&mut self, other: &ImageTransformer, x: i64, y: i64) -> (r: Result<
        (),
        TransformError,
    >)
        requires
            dims_supported(old(self)@),
        ensures
            match r {
                Ok(()) => 0 <= x < spec_dims(old(self)@).0 && 0 <= y < spec_dims(old(self)@).1
                    && final(self)@ == with_op(old(self)@, OpModel::Overlay { other: other@, x, y }),
                Err(e) => (x < 0 || y < 0 || x >= spec_dims(old(self)@).0 || y >= spec_dims(
                    old(self)@,
                ).1) && e == TransformError::OutOfBounds && final(self)@ == old(self)@,
            },
    {
        let cur = self.transformer.get_current_size();
        if x >= cur.0 as i64 || y >= cur.1 as i64 || x < 0 || y < 0 {
            Err(TransformError::OutOfBounds)
        } else {
            let copy = other.transformer.duplicate();
            let ghost prev = self.transformer.ops@;
            let op = TransformOps::Overlay(copy, x, y);
            self.transformer.ops.push(op);
            proof {
                lemma_ops_model_push(prev, op);
            }
            Ok(())
        }
    }

    /// The dimensions a render of the current spec would produce, computed
    /// without touching pixel data.
    pub fn get_current_dimensions(&self) -> (r: ImageInfo)
        requires
            dims_supported(self@),
        ensures
            r.width as int == spec_dims(self@).0,
            r.height as int == spec_dims(self@).1,
    {
        let cur = self.transformer.get_current_size();
        ImageInfo { width: cur.0, height: cur.1 }
    }

    /// Render the spec and pack the pixels into a raw buffer of the given
    /// layout, blocking the caller.
    pub fn to_buffer_sync(&self, format: PixelFormat) -> (r: Result<ComputedImage, TransformError>)
        requires
            render_ready(self@),
        ensures
            match r {
                Ok(res) => {
                    &&& render_sem(self@) matches Ok(img)
                    &&& render_sem(self@)->Ok_0.width == res.width
                    &&& render_sem(self@)->Ok_0.height == res.height
                    &&& encode_ok(render_sem(self@)->Ok_0, TargetFormat::PixelBuffer(format))
                        == Some(res.buffer@)
                },
                Err(e) => match render_sem(self@) {
                    Err(e2) => e == e2,
                    Ok(img) => encode_ok(img, TargetFormat::PixelBuffer(format)) is None && e
                        matches TransformError::EncodeError(_),
                },
            },
    {
        let target = TargetFormat::PixelBuffer(format);
        match compute_transform(&self.transformer, &target) {
            Ok(res) => Ok(
                ComputedImage { buffer: res.pixels, width: res.width, height: res.height },
            ),
            Err(e) => Err(e),
        }
    }

    /// Render the spec and serialize it into the given container format,
    /// blocking the caller. The quality option only affects JPEG.
    pub fn to_encoded_image_sync(&self, format: ImageFormat, options: Option<EncodingOptions>) -> (r:
        Result<ComputedImage, TransformError>)
        requires
            render_ready(self@),
        ensures
            match r {
                Ok(res) => {
                    &&& render_sem(self@) matches Ok(img)
                    &&& render_sem(self@)->Ok_0.width == res.width
                    &&& render_sem(self@)->Ok_0.height == res.height
                    &&& encode_ok(
                        render_sem(self@)->Ok_0,
                        TargetFormat::EncodedImage(format, spec_encoding_quality(options)),
                    ) == Some(res.buffer@)
                },
                Err(e) => match render_sem(self@) {
                    Err(e2) => e == e2,
                    Ok(img) => encode_ok(
                        img,
                        TargetFormat::EncodedImage(format, spec_encoding_quality(options)),
                    ) is None && e matches TransformError::EncodeError(_),
                },
            },
    {
        let quality: Option<u8> = match options {
            Some(o) => o.quality,
            None => None,
        };
        let target = TargetFormat::EncodedImage(format, quality);
        match compute_transform(&self.transformer, &target) {
            Ok(res) => Ok(
                ComputedImage { buffer: res.pixels, width: res.width, height: res.height },
            ),
            Err(e) => Err(e),
        }
    }
}

/// The quality carried by an optional set of encoding options.
pub open spec fn spec_encoding_quality(options: Option<EncodingOptions>) -> Option<u8> {
    match options {
        Some(o) => o.quality,
        None => None,
    }
}

} // verus!
