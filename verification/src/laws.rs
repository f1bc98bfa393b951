//! Laws of the pipeline: properties that relate several operations, stated
//! over the same models the functions' own contracts use.
use vstd::prelude::*;

use vstd::arithmetic::div_mod::lemma_fundamental_div_mod;
use vstd::arithmetic::div_mod::lemma_fundamental_div_mod_converse;
use vstd::arithmetic::div_mod::lemma_mod_bound;

use crate::ops::OpModel;
use crate::ops::SpecModel;
use crate::pixels::pixel_at;
use crate::pixels::rot270_rgba;
use crate::pixels::rot90_rgba;
use crate::render::ImgModel;
use crate::render::apply_sem;
use crate::render::img_wf;
use crate::render::load_sem;
use crate::render::render_sem;
use crate::render::run_from;
use crate::transformer::TargetFormat;
use crate::transformer::encode_ok;
use crate::types::PixelFormat;
use crate::types::RotationMode;
use crate::types::TransformError;

verus! {

/// Rendering a spec with no operations returns the materialized source
/// unchanged, in content and size.
pub proof fn lemma_render_no_ops(m: SpecModel)
    requires
        m.ops.len() == 0,
    ensures
        render_sem(m) == load_sem(m),
{
    match load_sem(m) {
        Ok(img0) => {
            assert(run_from(img0, m.ops, 0) == Ok::<ImgModel, TransformError>(img0));
        },
        Err(_) => {},
    }
}

/// Round trip: the raw RGBA8 encoding of a rendered image, loaded back as a
/// raw RGBA8 source of the same dimensions with no operations, renders to
/// the very same image.
pub proof fn lemma_rgba_round_trip(img: ImgModel)
    requires
        img_wf(img),
        img.bytes.len() > 0,
    ensures
        ({
            let bytes = encode_ok(img, TargetFormat::PixelBuffer(PixelFormat::rgba))->Some_0;
            render_sem(
                SpecModel {
                    bytes,
                    width: img.width,
                    height: img.height,
                    format: Some(PixelFormat::rgba),
                    ops: Seq::empty(),
                },
            ) == Ok::<ImgModel, TransformError>(img)
        }),
{
    let bytes = encode_ok(img, TargetFormat::PixelBuffer(PixelFormat::rgba))->Some_0;
    let m = SpecModel {
        bytes,
        width: img.width,
        height: img.height,
        format: Some(PixelFormat::rgba),
        ops: Seq::empty(),
    };
    lemma_render_no_ops(m);
    assert(load_sem(m) == Ok::<ImgModel, TransformError>(img));
}

/// Index arithmetic of one pixel in an RGBA8 buffer of width `w`: the byte
/// index of channel `c` of pixel `(px, py)` decomposes back into exactly
/// those coordinates.
proof fn lemma_pixel_index(w: int, px: int, py: int, c: int)
    requires
        0 <= c < 4,
        0 <= px < w,
        0 <= py,
    ensures
        ({
            let i = 4 * (py * w + px) + c;
            &&& 0 <= i
            &&& i % 4 == c
            &&& (i / 4) % w == px
            &&& (i / 4) / w == py
        }),
{
    let p = py * w + px;
    assert(0 <= py * w && py * w == w * py) by (nonlinear_arith)
        requires
            0 <= py,
            0 < w,
    ;
    let i = 4 * p + c;
    lemma_fundamental_div_mod_converse(i, 4, p, c);
    lemma_fundamental_div_mod_converse(p, w, py, px);
}

/// Rotating a `w` x `h` RGBA8 buffer 90 degrees clockwise and then 270
/// degrees clockwise restores it byte for byte.
pub proof fn lemma_rot_inverse_bytes(b: Seq<u8>, w: int, h: int)
    requires
        b.len() == 4 * w * h,
        0 <= w,
        0 <= h,
    ensures
        rot270_rgba(rot90_rgba(b, w, h), h, w) == b,
{
    let mid = rot90_rgba(b, w, h);
    let out = rot270_rgba(mid, h, w);
    assert(4 * h * w == 4 * w * h && 0 <= 4 * w * h) by (nonlinear_arith)
        requires
            0 <= w,
            0 <= h,
    ;
    assert forall|i: int| 0 <= i < out.len() implies out[i] == b[i] by {
        assert(w > 0 && h > 0) by (nonlinear_arith)
            requires
                0 <= w,
                0 <= h,
                0 <= i < 4 * w * h,
        ;
        let c = i % 4;
        let p = i / 4;
        let px = p % w;
        let py = p / w;
        lemma_fundamental_div_mod(i, 4);
        lemma_mod_bound(i, 4);
        lemma_fundamental_div_mod(p, w);
        lemma_mod_bound(p, w);
        assert(0 <= p < w * h && 0 <= py < h) by (nonlinear_arith)
            requires
                w > 0,
                h > 0,
                i == 4 * p + c,
                0 <= c < 4,
                0 <= i < 4 * w * h,
                p == w * py + px,
                0 <= px < w,
        ;
        let q = px * h + (h - 1 - py);
        assert((px + 1) * h <= w * h && (px + 1) * h == px * h + h && 0 <= px * h && h * w == w * h
            && 4 * (w * h) == 4 * w * h) by (nonlinear_arith)
            requires
                0 <= px,
                px + 1 <= w,
                0 < h,
        ;
        assert(0 <= q < h * w && 4 * q + c < 4 * h * w);
        let j = 4 * q + c;
        assert(out[i] == mid[j]);
        lemma_fundamental_div_mod_converse(j, 4, q, c);
        lemma_fundamental_div_mod_converse(q, h, px, h - 1 - py);
        assert(mid[j] == b[4 * ((h - 1 - (h - 1 - py)) * w + ((j / 4) / h)) + j % 4]);
        assert(4 * (py * w + px) + c == i) by (nonlinear_arith)
            requires
                i == 4 * p + c,
                p == w * py + px,
        ;
        assert(mid[j] == b[i]);
    };
    assert(out =~= b);
}

/// Index bounds of one pixel in an RGBA8 buffer of `w` x `h` pixels.
proof fn lemma_pixel_bound(w: int, h: int, px: int, py: int)
    requires
        0 <= px < w,
        0 <= py < h,
    ensures
        0 <= 4 * (py * w + px),
        4 * (py * w + px) + 4 <= 4 * w * h,
{
    assert((py + 1) * w <= h * w && (py + 1) * w == py * w + w && 0 <= py * w && h * w == w * h && 4
        * (w * h) == 4 * w * h) by (nonlinear_arith)
        requires
            0 <= py,
            py + 1 <= h,
            0 < w,
    ;
}

/// An overlay composites only within the clipped overlap of the base canvas
/// and the overlay rectangle: every pixel outside that region is unchanged.
/// An overlay anchored at (0, 0) whose rendered size equals the base's
/// replaces the base wherever its own pixels are fully opaque.
pub proof fn lemma_overlay_composites(img: ImgModel, other: SpecModel, x: i64, y: i64)
    requires
        img_wf(img),
        render_sem(other) is Ok,
        img_wf(render_sem(other)->Ok_0),
    ensures
        apply_sem(img, OpModel::Overlay { other, x, y }) is Ok,
        ({
            let top = render_sem(other)->Ok_0;
            let out = apply_sem(img, OpModel::Overlay { other, x, y })->Ok_0;
            &&& out.width == img.width
            &&& out.height == img.height
            &&& out.bytes.len() == img.bytes.len()
            &&& forall|px: int, py: int|
                0 <= px < img.width && 0 <= py < img.height && !(x <= px < x + top.width && y <= py
                    < y + top.height) ==> #[trigger] pixel_at(out.bytes, img.width as int, px, py)
                    == pixel_at(img.bytes, img.width as int, px, py)
            &&& (x == 0 && y == 0 && top.width == img.width && top.height == img.height)
                ==> forall|px: int, py: int|
                0 <= px < img.width && 0 <= py < img.height && pixel_at(
                    top.bytes,
                    top.width as int,
                    px,
                    py,
                )[3] == 255 ==> #[trigger] pixel_at(out.bytes, img.width as int, px, py)
                    == pixel_at(top.bytes, top.width as int, px, py)
        }),
{
    let top = render_sem(other)->Ok_0;
    let out = apply_sem(img, OpModel::Overlay { other, x, y })->Ok_0;
    let bw = img.width as int;
    let bh = img.height as int;
    let tw = top.width as int;
    let th = top.height as int;
    let xi = x as int;
    let yi = y as int;
    assert(out.bytes == crate::codec::overlaid_rgba(
        img.bytes,
        bw,
        bh,
        top.bytes,
        tw,
        th,
        xi,
        yi,
    ));
    assert(out.bytes.len() == img.bytes.len());
    assert forall|px: int, py: int|
        0 <= px < bw && 0 <= py < bh && !(xi <= px < xi + tw && yi <= py
            < yi + th) implies #[trigger] pixel_at(out.bytes, bw, px, py) == pixel_at(
        img.bytes,
        bw,
        px,
        py,
    ) by {
        lemma_pixel_bound(bw, bh, px, py);
        assert forall|c: int| 0 <= c < 4 implies #[trigger] pixel_at(out.bytes, bw, px, py)[c]
            == pixel_at(img.bytes, bw, px, py)[c] by {
            lemma_pixel_index(bw, px, py, c);
            assert(out.bytes[4 * (py * bw + px) + c] == img.bytes[4 * (py * bw + px) + c]);
            assert(pixel_at(out.bytes, bw, px, py)[c] == out.bytes[4 * (py * bw + px) + c]);
            assert(pixel_at(img.bytes, bw, px, py)[c] == img.bytes[4 * (py * bw + px) + c]);
        };
        assert(pixel_at(out.bytes, bw, px, py).len() == 4);
        assert(pixel_at(img.bytes, bw, px, py).len() == 4);
        assert(pixel_at(out.bytes, bw, px, py) =~= pixel_at(img.bytes, bw, px, py));
    };
    if x == 0 && y == 0 && top.width == img.width && top.height == img.height {
        assert forall|px: int, py: int|
            0 <= px < bw && 0 <= py < bh && pixel_at(top.bytes, tw, px, py)[3]
                == 255 implies #[trigger] pixel_at(out.bytes, bw, px, py) == pixel_at(
            top.bytes,
            tw,
            px,
            py,
        ) by {
            lemma_pixel_bound(bw, bh, px, py);
            lemma_pixel_bound(tw, th, px, py);
            assert forall|c: int| 0 <= c < 4 implies #[trigger] pixel_at(out.bytes, bw, px, py)[c]
                == pixel_at(top.bytes, tw, px, py)[c] by {
                lemma_pixel_index(bw, px, py, c);
                assert(pixel_at(top.bytes, tw, px, py)[c] == top.bytes[4 * (py * tw + px) + c]);
                assert(out.bytes[4 * (py * bw + px) + c] == top.bytes[4 * (py * tw + px) + c]);
                assert(pixel_at(out.bytes, bw, px, py)[c] == out.bytes[4 * (py * bw + px) + c]);
            };
            assert(pixel_at(out.bytes, bw, px, py).len() == 4);
            assert(pixel_at(top.bytes, tw, px, py).len() == 4);
            assert(pixel_at(out.bytes, bw, px, py) =~= pixel_at(top.bytes, tw, px, py));
        };
    }
}

/// Rotating an image 90 degrees clockwise and then 270 degrees clockwise
/// returns it to its original dimensions and, with no other operation in
/// between, to the identical pixels.
pub proof fn lemma_rotate_round_trip(img: ImgModel)
    requires
        img_wf(img),
    ensures
        ({
            let once = apply_sem(img, OpModel::Rotate { mode: RotationMode::CW90 })->Ok_0;
            apply_sem(once, OpModel::Rotate { mode: RotationMode::CW270 }) == Ok::<
                ImgModel,
                TransformError,
            >(img)
        }),
{
    lemma_rot_inverse_bytes(img.bytes, img.width as int, img.height as int);
}

} // verus!
