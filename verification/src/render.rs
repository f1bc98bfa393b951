//! The render engine: materialize a spec's source, then apply each
//! operation in append order, producing one final RGBA8 image.
//!
//! `render_sem` is the mathematical semantics of a full render; `render`
//! computes it. The per-operation semantics mirrors the documented no-op
//! short-circuits: a scale to identical dimensions, a crop of identical
//! dimensions, and an all-zero pad return the input unchanged.
use vstd::prelude::*;

use crate::codec::decode_to_rgba;
use crate::codec::decoded_image;
use crate::codec::crop_rgba;
use crate::codec::flip_h_exec;
use crate::codec::flip_v_exec;
use crate::codec::lanczos_rgba;
use crate::codec::overlaid_rgba;
use crate::codec::overlay_exec;
use crate::codec::paste_exec;
use crate::codec::resize_rgba;
use crate::codec::rotate180_exec;
use crate::codec::rotate270_exec;
use crate::codec::rotate90_exec;
use crate::dims::aspect_dims;
use crate::dims::dims_from;
use crate::dims::op_dims;
use crate::dims::op_dims_ok;
use crate::dims::spec_aspect_dims;
use crate::dims::spec_dims;
use crate::ops::OpModel;
use crate::ops::SpecModel;
use crate::ops::TransformOps;
use crate::ops::TransformSpec;
use crate::ops::lemma_ops_model_index;
use crate::ops::lemma_ops_model_len;
use crate::ops::op_model;
use crate::pixels::flip_h_rgba;
use crate::pixels::flip_v_rgba;
use crate::pixels::paste_rgba;
use crate::pixels::rgb_buffer_to_rgba;
use crate::pixels::rgba_from_rgb;
use crate::pixels::rot180_rgba;
use crate::pixels::rot270_rgba;
use crate::pixels::rot90_rgba;
use crate::pixels::solid_buffer;
use crate::pixels::solid_rgba;
use crate::pixels::sub_rect;
use crate::types::PixelFormat;
use crate::types::ResizeMode;
use crate::types::RotationMode;
use crate::types::TransformError;

verus! {

/// A fully materialized RGBA8 image: the universal intermediate
/// representation every operation consumes and produces.
pub struct RenderedImage {
    pub width: u32,
    pub height: u32,
    pub pixels: Vec<u8>,
}

/// The mathematical image of a rendered image.
pub struct ImgModel {
    pub width: u32,
    pub height: u32,
    pub bytes: Seq<u8>,
}

impl View for RenderedImage {
    type V = ImgModel;

    open spec fn view(&self) -> ImgModel {
        ImgModel { width: self.width, height: self.height, bytes: self.pixels@ }
    }
}

/// An RGBA8 image holds exactly 4 bytes per pixel.
pub open spec fn img_wf(m: ImgModel) -> bool {
    m.bytes.len() == 4 * (m.width as int) * (m.height as int)
}

/// Materializing the source of a spec: an empty buffer is rejected; a raw
/// buffer must hold exactly width*height*bytes-per-pixel bytes (RGB sources
/// are expanded to RGBA); encoded bytes must decode, to a nonempty image of
/// exactly the dimensions read when the spec was created.
pub open spec fn load_sem(m: SpecModel) -> Result<ImgModel, TransformError> {
    if m.bytes.len() == 0 {
        if m.format is Some {
            Err(TransformError::InvalidPixelBuffer)
        } else {
            Err(TransformError::DecodeError)
        }
    } else {
        match m.format {
            Some(PixelFormat::rgba) => {
                if m.bytes.len() == 4 * (m.width as int) * (m.height as int) {
                    Ok(ImgModel { width: m.width, height: m.height, bytes: m.bytes })
                } else {
                    Err(TransformError::InvalidPixelBuffer)
                }
            },
            Some(PixelFormat::rgb) => {
                if m.bytes.len() == 3 * (m.width as int) * (m.height as int) {
                    Ok(ImgModel { width: m.width, height: m.height, bytes: rgba_from_rgb(m.bytes) })
                } else {
                    Err(TransformError::InvalidPixelBuffer)
                }
            },
            None => {
                match decoded_image(m.bytes) {
                    Some((w, h, px)) => {
                        if w == m.width && h == m.height && 1 <= w && 1 <= h {
                            Ok(ImgModel { width: w, height: h, bytes: px })
                        } else {
                            Err(TransformError::DecodeError)
                        }
                    },
                    None => Err(TransformError::DecodeError),
                }
            },
        }
    }
}

/// A scale step: a scale to the image's own size is skipped; `Exact`
/// resamples to the target; `Fit` resamples to the aspect-preserving size
/// inside the target box; `Fill` resamples to the aspect-preserving size
/// covering the target box, then center-crops the longer axis down to the
/// target.
pub open spec fn scale_sem(img: ImgModel, tw: u32, th: u32, mode: ResizeMode) -> ImgModel {
    if img.width == tw && img.height == th {
        img
    } else {
        match mode {
            ResizeMode::Exact => ImgModel {
                width: tw,
                height: th,
                bytes: lanczos_rgba(img.bytes, img.width, img.height, tw, th),
            },
            ResizeMode::Fit => {
                let d = spec_aspect_dims(
                    img.width as int,
                    img.height as int,
                    tw as int,
                    th as int,
                    false,
                );
                ImgModel {
                    width: d.0 as u32,
                    height: d.1 as u32,
                    bytes: lanczos_rgba(img.bytes, img.width, img.height, d.0 as u32, d.1 as u32),
                }
            },
            ResizeMode::Fill => {
                let c = spec_aspect_dims(
                    img.width as int,
                    img.height as int,
                    tw as int,
                    th as int,
                    true,
                );
                let mid = lanczos_rgba(img.bytes, img.width, img.height, c.0 as u32, c.1 as u32);
                if (tw as int) * c.1 > c.0 * (th as int) {
                    ImgModel {
                        width: tw,
                        height: th,
                        bytes: sub_rect(mid, c.0, 0, (c.1 - th) / 2, tw as int, th as int),
                    }
                } else {
                    ImgModel {
                        width: tw,
                        height: th,
                        bytes: sub_rect(mid, c.0, (c.0 - tw) / 2, 0, tw as int, th as int),
                    }
                }
            },
        }
    }
}

/// A crop step: a crop to the image's own size is skipped; an out-of-range
/// rectangle is rejected; otherwise exactly the rectangle is kept.
pub open spec fn crop_sem(img: ImgModel, x: u32, y: u32, cw: u32, ch: u32) -> Result<
    ImgModel,
    TransformError,
> {
    if img.width == cw && img.height == ch {
        Ok(img)
    } else if x + cw <= img.width && y + ch <= img.height {
        Ok(
            ImgModel {
                width: cw,
                height: ch,
                bytes: sub_rect(
                    img.bytes,
                    img.width as int,
                    x as int,
                    y as int,
                    cw as int,
                    ch as int,
                ),
            },
        )
    } else {
        Err(TransformError::InvalidDimensions)
    }
}

/// A centered crop step: the offset is the centering division, floored,
/// matching the dimension model exactly.
pub open spec fn crop_center_sem(img: ImgModel, cw: u32, ch: u32) -> Result<
    ImgModel,
    TransformError,
> {
    if img.width == cw && img.height == ch {
        Ok(img)
    } else if cw <= img.width && ch <= img.height {
        Ok(
            ImgModel {
                width: cw,
                height: ch,
                bytes: sub_rect(
                    img.bytes,
                    img.width as int,
                    (img.width - cw) / 2,
                    (img.height - ch) / 2,
                    cw as int,
                    ch as int,
                ),
            },
        )
    } else {
        Err(TransformError::InvalidDimensions)
    }
}

/// A pad step: an all-zero pad is skipped; otherwise the image is pasted
/// onto a solid canvas of the fill color, offset by the left and top
/// margins.
pub open spec fn pad_sem(
    img: ImgModel,
    left: u32,
    right: u32,
    top: u32,
    bottom: u32,
    color: crate::types::RgbaValue,
) -> ImgModel {
    if left == 0 && right == 0 && top == 0 && bottom == 0 {
        img
    } else {
        let nw = (img.width + left + right) as u32;
        let nh = (img.height + top + bottom) as u32;
        ImgModel {
            width: nw,
            height: nh,
            bytes: paste_rgba(
                solid_rgba(nw as int, nh as int, color),
                nw as int,
                img.bytes,
                img.width as int,
                img.height as int,
                left as int,
                top as int,
            ),
        }
    }
}

/// A rotation step.
pub open spec fn rotate_sem(img: ImgModel, mode: RotationMode) -> ImgModel {
    match mode {
        RotationMode::CW90 => ImgModel {
            width: img.height,
            height: img.width,
            bytes: rot90_rgba(img.bytes, img.width as int, img.height as int),
        },
        RotationMode::CW180 => ImgModel {
            width: img.width,
            height: img.height,
            bytes: rot180_rgba(img.bytes, img.width as int, img.height as int),
        },
        RotationMode::CW270 => ImgModel {
            width: img.height,
            height: img.width,
            bytes: rot270_rgba(img.bytes, img.width as int, img.height as int),
        },
    }
}

/// The semantics of one operation applied to a materialized image. Overlay
/// renders the nested spec recursively and composites it at the anchor,
/// clipped to the overlap; its errors propagate.
pub open spec fn apply_sem(img: ImgModel, op: OpModel) -> Result<ImgModel, TransformError>
    decreases op, 0int,
{
    match op {
        OpModel::Scale { width, height, mode } => Ok(scale_sem(img, width, height, mode)),
        OpModel::Crop { x, y, width, height } => crop_sem(img, x, y, width, height),
        OpModel::CropCenter { width, height } => crop_center_sem(img, width, height),
        OpModel::Pad { left, right, top, bottom, fill_color } => Ok(
            pad_sem(img, left, right, top, bottom, fill_color),
        ),
        OpModel::FlipV => Ok(
            ImgModel {
                width: img.width,
                height: img.height,
                bytes: flip_v_rgba(img.bytes, img.width as int, img.height as int),
            },
        ),
        OpModel::FlipH => Ok(
            ImgModel {
                width: img.width,
                height: img.height,
                bytes: flip_h_rgba(img.bytes, img.width as int, img.height as int),
            },
        ),
        OpModel::Rotate { mode } => Ok(rotate_sem(img, mode)),
        OpModel::Overlay { other, x, y } => match render_sem(other) {
            Ok(top) => Ok(
                ImgModel {
                    width: img.width,
                    height: img.height,
                    bytes: overlaid_rgba(
                        img.bytes,
                        img.width as int,
                        img.height as int,
                        top.bytes,
                        top.width as int,
                        top.height as int,
                        x as int,
                        y as int,
                    ),
                },
            ),
            Err(e) => Err(e),
        },
    }
}

/// The image after the first `n` operations, or the first error raised.
pub open spec fn run_from(img: ImgModel, ops: Seq<OpModel>, n: int) -> Result<
    ImgModel,
    TransformError,
>
    decreases ops, n,
{
    if n <= 0 || n > ops.len() {
        Ok(img)
    } else {
        match run_from(img, ops, n - 1) {
            Ok(im) => apply_sem(im, ops[n - 1]),
            Err(e) => Err(e),
        }
    }
}

/// The semantics of a full render: materialize the source, then apply every
/// operation in append order.
pub open spec fn render_sem(m: SpecModel) -> Result<ImgModel, TransformError>
    decreases m, 0int,
{
    match load_sem(m) {
        Ok(img0) => run_from(img0, m.ops, m.ops.len() as int),
        Err(e) => Err(e),
    }
}

/// The intermediate buffer of `w` x `h` RGBA8 pixels is addressable.
pub open spec fn fits_usize(w: int, h: int) -> bool {
    4 * w * h <= usize::MAX as int
}

/// What the render engine needs of one step beyond `op_dims_ok`: the result
/// buffer is addressable, a `Fill` scale starts from a nonempty image and
/// its covering size reaches the target box on both axes and is
/// addressable, and a nested overlay spec is renderable in turn.
pub open spec fn op_render_ok(w: int, h: int, op: OpModel) -> bool
    decreases op, 0int,
{
    &&& op_dims_ok(w, h, op)
    &&& fits_usize(op_dims(w, h, op).0, op_dims(w, h, op).1)
    &&& match op {
        OpModel::Scale { width, height, mode } => match mode {
            ResizeMode::Exact => true,
            ResizeMode::Fit => true,
            ResizeMode::Fill => {
                let c = spec_aspect_dims(w, h, width as int, height as int, true);
                &&& 1 <= w && 1 <= h
                &&& c.0 >= width as int
                &&& c.1 >= height as int
                &&& fits_usize(c.0, c.1)
            },
        },
        OpModel::Overlay { other, .. } => render_ready(other),
        _ => true,
    }
}

/// `op_render_ok` at every step from `n` on.
pub open spec fn ops_render_ok(w: int, h: int, ops: Seq<OpModel>, n: int) -> bool
    decreases ops, ops.len() - n,
{
    !(0 <= n < ops.len()) || {
        let cur = dims_from(w, h, ops, n);
        op_render_ok(cur.0, cur.1, ops[n]) && ops_render_ok(w, h, ops, n + 1)
    }
}

/// Everything the render engine needs so that no intermediate size
/// overflows the machine: every step of the spec, and of every nested
/// overlay spec, is representable. Every spec built through the builder
/// satisfies this unless a pad pushes a dimension past `u32::MAX` or an
/// intermediate buffer past the address space.
pub open spec fn render_ready(m: SpecModel) -> bool
    decreases m, 1int,
{
    ops_render_ok(m.width as int, m.height as int, m.ops, 0)
}

/// A renderable spec's tracked size is representable at every step.
pub proof fn lemma_render_ready_supported(m: SpecModel)
    requires
        render_ready(m),
    ensures
        crate::dims::dims_supported(m),
{
    lemma_ops_render_supported(m.width as int, m.height as int, m.ops, 0);
}

proof fn lemma_ops_render_supported(w: int, h: int, ops: Seq<OpModel>, n: int)
    requires
        ops_render_ok(w, h, ops, n),
        0 <= n,
    ensures
        crate::dims::dims_supported_from(w, h, ops, n),
    decreases ops.len() - n,
{
    if n < ops.len() {
        let cur = dims_from(w, h, ops, n);
        assert(op_render_ok(cur.0, cur.1, ops[n]));
        assert(op_dims_ok(cur.0, cur.1, ops[n]));
        lemma_ops_render_supported(w, h, ops, n + 1);
    }
}

pub proof fn lemma_ops_render_at(w: int, h: int, ops: Seq<OpModel>, n: int, i: int)
    requires
        ops_render_ok(w, h, ops, n),
        0 <= n <= i < ops.len(),
    ensures
        op_render_ok(dims_from(w, h, ops, i).0, dims_from(w, h, ops, i).1, ops[i]),
    decreases i - n,
{
    if i > n {
        lemma_ops_render_at(w, h, ops, n + 1, i);
    }
}

/// A successful step's dimensions are what the dimension model's table
/// gives for it.
pub proof fn lemma_apply_dims(img: ImgModel, op: OpModel)
    requires
        op_dims_ok(img.width as int, img.height as int, op),
        apply_sem(img, op) is Ok,
    ensures
        apply_sem(img, op)->Ok_0.width as int == op_dims(img.width as int, img.height as int, op).0,
        apply_sem(img, op)->Ok_0.height as int == op_dims(img.width as int, img.height as int, op).1,
{
    match op {
        OpModel::Scale { width, height, mode } => {
            if (mode matches ResizeMode::Fit) && img.width == width && img.height == height {
                crate::dims::lemma_aspect_identity(img.width as int, img.height as int);
            }
        },
        _ => {},
    }
}

pub proof fn lemma_run_err_persists(img: ImgModel, ops: Seq<OpModel>, n: int, m2: int)
    requires
        0 <= n <= m2 <= ops.len(),
        run_from(img, ops, n) is Err,
    ensures
        run_from(img, ops, m2) == run_from(img, ops, n),
    decreases m2 - n,
{
    if m2 > n {
        lemma_run_err_persists(img, ops, n, m2 - 1);
    }
}

proof fn lemma_buf_len_nonneg(a: int, b: int)
    requires
        0 <= a,
        0 <= b,
    ensures
        0 <= 4 * a * b,
{
    assert(0 <= 4 * a * b) by (nonlinear_arith)
        requires
            0 <= a,
            0 <= b,
    ;
}

fn load_source(spec: &TransformSpec) -> (r: Result<RenderedImage, TransformError>)
    ensures
        match r {
            Ok(img) => load_sem(spec@) == Ok::<ImgModel, TransformError>(img@) && img_wf(img@) && img@.width == spec@.width
                && img@.height == spec@.height,
            Err(e) => load_sem(spec@) == Err::<ImgModel, TransformError>(e),
        },
{
    if spec.buffer.len() == 0 {
        return Err(
            match spec.format {
                Some(_) => TransformError::InvalidPixelBuffer,
                None => TransformError::DecodeError,
            },
        );
    }
    proof {
        let ghost wi = spec@.width as int;
        let ghost hi = spec@.height as int;
        assert(0 <= wi * hi <= (u32::MAX as int) * (u32::MAX as int) && 4 * (wi * hi) == 4 * wi
            * hi && 3 * (wi * hi) == 3 * wi * hi && (3 * (wi * hi)) % 3 == 0 && (3 * (wi * hi)) / 3
            == wi * hi && (3 * (wi * hi)) / 3 * 4 == 4 * wi * hi) by (nonlinear_arith)
            requires
                0 <= wi <= u32::MAX,
                0 <= hi <= u32::MAX,
        ;
    }
    let wh: u128 = (spec.width as u128) * (spec.height as u128);
    match spec.format {
        Some(PixelFormat::rgba) => {
            let expected: u128 = 4 * wh;
            if spec.buffer.len() as u128 == expected {
                let px = (*spec.buffer).clone();
                proof {
                    assert(px@ =~= spec.buffer@);
                }
                Ok(RenderedImage { width: spec.width, height: spec.height, pixels: px })
            } else {
                Err(TransformError::InvalidPixelBuffer)
            }
        },
        Some(PixelFormat::rgb) => {
            let expected: u128 = 3 * wh;
            if spec.buffer.len() as u128 == expected {
                let px = rgb_buffer_to_rgba(&*spec.buffer);
                Ok(RenderedImage { width: spec.width, height: spec.height, pixels: px })
            } else {
                Err(TransformError::InvalidPixelBuffer)
            }
        },
        None => {
            match decode_to_rgba(&*spec.buffer) {
                Some((px, w, h)) => {
                    if w == spec.width && h == spec.height && w >= 1 && h >= 1 {
                        Ok(RenderedImage { width: w, height: h, pixels: px })
                    } else {
                        Err(TransformError::DecodeError)
                    }
                },
                None => Err(TransformError::DecodeError),
            }
        },
    }
}

/// Apply one operation to a materialized image.
fn apply_op(img: RenderedImage, op: &TransformOps) -> (r: Result<RenderedImage, TransformError>)
    requires
        img_wf(img@),
        op_render_ok(img@.width as int, img@.height as int, op_model(*op)),
    ensures
        match r {
            Ok(out) => apply_sem(img@, op_model(*op)) == Ok::<ImgModel, TransformError>(out@) && img_wf(out@),
            Err(e) => apply_sem(img@, op_model(*op)) == Err::<ImgModel, TransformError>(e),
        },
    decreases *op,
{
    match op {
        TransformOps::Scale(s) => {
            if img.width == s.width && img.height == s.height {
                Ok(img)
            } else {
                match s.mode {
                    ResizeMode::Exact => {
                        let px = resize_rgba(&img.pixels, img.width, img.height, s.width, s.height);
                        Ok(RenderedImage { width: s.width, height: s.height, pixels: px })
                    },
                    ResizeMode::Fit => {
                        let d = aspect_dims(img.width, img.height, s.width, s.height, false);
                        let px = resize_rgba(&img.pixels, img.width, img.height, d.0, d.1);
                        Ok(RenderedImage { width: d.0, height: d.1, pixels: px })
                    },
                    ResizeMode::Fill => {
                        let c = aspect_dims(img.width, img.height, s.width, s.height, true);
                        proof {
                            let ghost cs = spec_aspect_dims(
                                img@.width as int,
                                img@.height as int,
                                s.width as int,
                                s.height as int,
                                true,
                            );
                            assert(cs.0 >= s.width as int && cs.1 >= s.height as int && fits_usize(
                                cs.0,
                                cs.1,
                            ));
                            assert((s.width as int) * (c.1 as int) <= (u32::MAX as int) * (
                            u32::MAX as int) && (c.0 as int) * (s.height as int) <= (
                            u32::MAX as int) * (u32::MAX as int)) by (nonlinear_arith)
                                requires
                                    0 <= s.width <= u32::MAX,
                                    0 <= s.height <= u32::MAX,
                                    0 <= c.0 <= u32::MAX,
                                    0 <= c.1 <= u32::MAX,
                            ;
                        }
                        let mid = resize_rgba(&img.pixels, img.width, img.height, c.0, c.1);
                        let nratio: u64 = (s.width as u64) * (c.1 as u64);
                        let ratio: u64 = (c.0 as u64) * (s.height as u64);
                        let px = if nratio > ratio {
                            crop_rgba(&mid, c.0, c.1, 0, (c.1 - s.height) / 2, s.width, s.height)
                        } else {
                            crop_rgba(&mid, c.0, c.1, (c.0 - s.width) / 2, 0, s.width, s.height)
                        };
                        proof {
                            lemma_buf_len_nonneg(s.width as int, s.height as int);
                        }
                        Ok(RenderedImage { width: s.width, height: s.height, pixels: px })
                    },
                }
            }
        },
        TransformOps::Crop(c) => {
            if img.width == c.width && img.height == c.height {
                Ok(img)
            } else if (c.x as u64) + (c.width as u64) <= (img.width as u64) && (c.y as u64) + (
            c.height as u64) <= (img.height as u64) {
                let px = crop_rgba(&img.pixels, img.width, img.height, c.x, c.y, c.width, c.height);
                proof {
                    lemma_buf_len_nonneg(c.width as int, c.height as int);
                }
                Ok(RenderedImage { width: c.width, height: c.height, pixels: px })
            } else {
                Err(TransformError::InvalidDimensions)
            }
        },
        TransformOps::CropCenter(c) => {
            if img.width == c.width && img.height == c.height {
                Ok(img)
            } else if c.width <= img.width && c.height <= img.height {
                let ox = (img.width - c.width) / 2;
                let oy = (img.height - c.height) / 2;
                let px = crop_rgba(&img.pixels, img.width, img.height, ox, oy, c.width, c.height);
                proof {
                    lemma_buf_len_nonneg(c.width as int, c.height as int);
                }
                Ok(RenderedImage { width: c.width, height: c.height, pixels: px })
            } else {
                Err(TransformError::InvalidDimensions)
            }
        },
        TransformOps::Pad(p) => {
            if p.left == 0 && p.right == 0 && p.top == 0 && p.bottom == 0 {
                Ok(img)
            } else {
                let nw = ((img.width as u64) + (p.left as u64) + (p.right as u64)) as u32;
                let nh = ((img.height as u64) + (p.top as u64) + (p.bottom as u64)) as u32;
                let canvas = solid_buffer(nw, nh, p.fill_color);
                let px = paste_exec(
                    &canvas,
                    nw,
                    nh,
                    &img.pixels,
                    img.width,
                    img.height,
                    p.left,
                    p.top,
                );
                proof {
                    lemma_buf_len_nonneg(nw as int, nh as int);
                }
                Ok(RenderedImage { width: nw, height: nh, pixels: px })
            }
        },
        TransformOps::FlipV => {
            let px = flip_v_exec(&img.pixels, img.width, img.height);
            Ok(RenderedImage { width: img.width, height: img.height, pixels: px })
        },
        TransformOps::FlipH => {
            let px = flip_h_exec(&img.pixels, img.width, img.height);
            Ok(RenderedImage { width: img.width, height: img.height, pixels: px })
        },
        TransformOps::Rotate(mode) => {
            proof {
                assert(4 * (img@.width as int) * (img@.height as int) == 4 * (img@.height as int)
                    * (img@.width as int)) by (nonlinear_arith);
            }
            match mode {
                RotationMode::CW90 => {
                    let px = rotate90_exec(&img.pixels, img.width, img.height);
                    Ok(RenderedImage { width: img.height, height: img.width, pixels: px })
                },
                RotationMode::CW180 => {
                    let px = rotate180_exec(&img.pixels, img.width, img.height);
                    Ok(RenderedImage { width: img.width, height: img.height, pixels: px })
                },
                RotationMode::CW270 => {
                    let px = rotate270_exec(&img.pixels, img.width, img.height);
                    Ok(RenderedImage { width: img.height, height: img.width, pixels: px })
                },
            }
        },
        TransformOps::Overlay(other, x, y) => {
            proof {
                assert(decreases_to!(*op => op->Overlay_0));
            }
            match render(other) {
                Ok(top) => {
                    let px = overlay_exec(
                        &img.pixels,
                        img.width,
                        img.height,
                        &top.pixels,
                        top.width,
                        top.height,
                        *x,
                        *y,
                    );
                    Ok(RenderedImage { width: img.width, height: img.height, pixels: px })
                },
                Err(e) => Err(e),
            }
        },
    }
}

fn fits_usize_exec(w: u32, h: u32) -> (r: bool)
    ensures
        r == fits_usize(w as int, h as int),
{
    proof {
        assert(0 <= (w as int) * (h as int) <= (u32::MAX as int) * (u32::MAX as int) && 4 * ((
        w as int) * (h as int)) == 4 * (w as int) * (h as int)) by (nonlinear_arith)
            requires
                0 <= w <= u32::MAX,
                0 <= h <= u32::MAX,
        ;
    }
    let wh: u128 = (w as u128) * (h as u128);
    4 * wh <= usize::MAX as u128
}

impl TransformSpec {
    /// Decide whether every step of this spec, and of every nested overlay
    /// spec, keeps the intermediate image representable on this machine, so
    /// that [`render`] may be called.
    #[verifier::loop_isolation(false)]
    pub fn check_render_ready(&self) -> (r: bool)
        ensures
            r == render_ready(self@),
        decreases *self,
    {
        proof {
            lemma_ops_model_len(self.ops@);
        }
        let ghost gw = self@.width as int;
        let ghost gh = self@.height as int;
        let mut w: u32 = self.width;
        let mut h: u32 = self.height;
        let mut i: usize = 0;
        while i < self.ops.len()
            invariant
                0 <= i <= self.ops@.len(),
                w as int == dims_from(gw, gh, self@.ops, i as int).0,
                h as int == dims_from(gw, gh, self@.ops, i as int).1,
                ops_render_ok(gw, gh, self@.ops, 0) == ops_render_ok(gw, gh, self@.ops, i as int),
            decreases self.ops@.len() - i,
        {
            proof {
                lemma_ops_model_index(self.ops@, i as int);
            }
            let ok: bool = match &self.ops[i] {
                TransformOps::Scale(s) => {
                    match s.mode {
                        ResizeMode::Exact => fits_usize_exec(s.width, s.height),
                        ResizeMode::Fit => {
                            if w == 0 || h == 0 {
                                false
                            } else {
                                let d = aspect_dims(w, h, s.width, s.height, false);
                                fits_usize_exec(d.0, d.1)
                            }
                        },
                        ResizeMode::Fill => {
                            if !fits_usize_exec(s.width, s.height) {
                                false
                            } else if w == 0 || h == 0 {
                                false
                            } else {
                                let cv = aspect_dims(w, h, s.width, s.height, true);
                                cv.0 >= s.width && cv.1 >= s.height && fits_usize_exec(cv.0, cv.1)
                            }
                        },
                    }
                },
                TransformOps::Crop(c) => fits_usize_exec(c.width, c.height),
                TransformOps::CropCenter(c) => fits_usize_exec(c.width, c.height),
                TransformOps::Pad(p) => {
                    let nw64: u64 = w as u64 + p.left as u64 + p.right as u64;
                    let nh64: u64 = h as u64 + p.top as u64 + p.bottom as u64;
                    if nw64 > u32::MAX as u64 || nh64 > u32::MAX as u64 {
                        false
                    } else {
                        fits_usize_exec(nw64 as u32, nh64 as u32)
                    }
                },
                TransformOps::FlipV => fits_usize_exec(w, h),
                TransformOps::FlipH => fits_usize_exec(w, h),
                TransformOps::Rotate(mode) => {
                    match mode {
                        RotationMode::CW90 => fits_usize_exec(h, w),
                        RotationMode::CW180 => fits_usize_exec(w, h),
                        RotationMode::CW270 => fits_usize_exec(h, w),
                    }
                },
                TransformOps::Overlay(other, _, _) => {
                    proof {
                        assert(decreases_to!(*self => self.ops));
                        assert(decreases_to!(self.ops => self.ops@));
                        assert(decreases_to!(self.ops@ => self.ops@[i as int]));
                        assert(decreases_to!(*self => self.ops@[i as int]));
                    }
                    fits_usize_exec(w, h) && other.check_render_ready()
                },
            };
            proof {
                assert(ops_render_ok(gw, gh, self@.ops, i as int) == (op_render_ok(
                    w as int,
                    h as int,
                    self@.ops[i as int],
                ) && ops_render_ok(gw, gh, self@.ops, i as int + 1)));
            }
            if !ok {
                return false;
            }
            match &self.ops[i] {
                TransformOps::Scale(s) => {
                    match s.mode {
                        ResizeMode::Exact => {
                            w = s.width;
                            h = s.height;
                        },
                        ResizeMode::Fill => {
                            w = s.width;
                            h = s.height;
                        },
                        ResizeMode::Fit => {
                            let d = aspect_dims(w, h, s.width, s.height, false);
                            w = d.0;
                            h = d.1;
                        },
                    }
                },
                TransformOps::Crop(c) => {
                    w = c.width;
                    h = c.height;
                },
                TransformOps::CropCenter(c) => {
                    w = c.width;
                    h = c.height;
                },
                TransformOps::Pad(p) => {
                    let nw64: u64 = w as u64 + p.left as u64 + p.right as u64;
                    let nh64: u64 = h as u64 + p.top as u64 + p.bottom as u64;
                    w = nw64 as u32;
                    h = nh64 as u32;
                },
                TransformOps::FlipV => {},
                TransformOps::FlipH => {},
                TransformOps::Rotate(mode) => {
                    match mode {
                        RotationMode::CW90 => {
                            let t = w;
                            w = h;
                            h = t;
                        },
                        RotationMode::CW180 => {},
                        RotationMode::CW270 => {
                            let t = w;
                            w = h;
                            h = t;
                        },
                    }
                },
                TransformOps::Overlay(_, _, _) => {},
            }
            i = i + 1;
        }
        true
    }
}

/// Render a spec: materialize the source, then apply every operation in
/// append order. On success the image's dimensions are exactly what the
/// dimension model predicts.
#[verifier::loop_isolation(false)]
pub fn render(spec: &TransformSpec) -> (r: Result<RenderedImage, TransformError>)
    requires
        render_ready(spec@),
    ensures
        match r {
            Ok(img) => {
                &&& render_sem(spec@) == Ok::<ImgModel, TransformError>(img@)
                &&& img_wf(img@)
                &&& img@.width as int == spec_dims(spec@).0
                &&& img@.height as int == spec_dims(spec@).1
            },
            Err(e) => render_sem(spec@) == Err::<ImgModel, TransformError>(e),
        },
    decreases *spec,
{
    proof {
        lemma_ops_model_len(spec.ops@);
    }
    let mut cur: RenderedImage = match load_source(spec) {
        Ok(img) => img,
        Err(e) => {
            return Err(e);
        },
    };
    let ghost img0 = cur@;
    let mut i: usize = 0;
    while i < spec.ops.len()
        invariant
            0 <= i <= spec.ops@.len(),
            run_from(img0, spec@.ops, i as int) == Ok::<ImgModel, TransformError>(cur@),
            img_wf(cur@),
            cur@.width as int == dims_from(spec@.width as int, spec@.height as int, spec@.ops, i as int).0,
            cur@.height as int == dims_from(spec@.width as int, spec@.height as int, spec@.ops, i as int).1,
        decreases spec.ops@.len() - i,
    {
        proof {
            lemma_ops_render_at(spec@.width as int, spec@.height as int, spec@.ops, 0, i as int);
            lemma_ops_model_index(spec.ops@, i as int);
            assert(decreases_to!(*spec => spec.ops));
            assert(decreases_to!(spec.ops => spec.ops@));
            assert(decreases_to!(spec.ops@ => spec.ops@[i as int]));
            assert(decreases_to!(*spec => spec.ops@[i as int]));
        }
        let ghost prev = cur@;
        cur = match apply_op(cur, &spec.ops[i]) {
            Ok(out) => out,
            Err(e) => {
                proof {
                    lemma_run_err_persists(img0, spec@.ops, i as int + 1, spec@.ops.len() as int);
                }
                return Err(e);
            },
        };
        proof {
            lemma_apply_dims(prev, spec@.ops[i as int]);
        }
        i = i + 1;
    }
    Ok(cur)
}

} // verus!
