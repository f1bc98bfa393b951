//! Trusted wrappers around the `image` crate.
//!
//! Everything pixel-exact that the crate computes from its inputs alone and
//! that cannot be stated in a few lines (decoding, Lanczos resampling,
//! container encoding, alpha blending) is given a name: an uninterpreted
//! spec function applied in the wrapper's contract. Pure rearrangements
//! (crop, flips, rotations, paste) are stated exactly against the formulas
//! in [`crate::pixels`]. Each wrapper's body only makes the call and
//! converts its arguments and result.
use vstd::prelude::*;

use crate::pixels::flip_h_rgba;
use crate::pixels::flip_v_rgba;
use crate::pixels::paste_rgba;
use crate::pixels::pixel_at;
use crate::pixels::rot180_rgba;
use crate::pixels::rot270_rgba;
use crate::pixels::rot90_rgba;
use crate::pixels::sub_rect;

verus! {

/// What decoding a container-encoded byte stream yields: `None` where the
/// format cannot be determined or the data is malformed, else the image's
/// width, height, and RGBA8 pixels.
pub uninterp spec fn decoded_image(bytes: Seq<u8>) -> Option<(u32, u32, Seq<u8>)>;

/// The dimensions the container header declares, where they can be read.
pub uninterp spec fn header_dims(bytes: Seq<u8>) -> Option<(u32, u32)>;

/// What Lanczos3 resampling of a `w` x `h` RGBA8 buffer to `tw` x `th`
/// yields.
pub uninterp spec fn lanczos_rgba(b: Seq<u8>, w: u32, h: u32, tw: u32, th: u32) -> Seq<u8>;

/// What PNG encoding of an RGBA8 buffer yields; `None` where the codec
/// reports an error.
pub uninterp spec fn png_encoded(b: Seq<u8>, w: u32, h: u32) -> Option<Seq<u8>>;

/// What JPEG encoding of an RGB8 buffer at the given quality (the codec's
/// 0-100 scale) yields; `None` where the codec reports an error.
pub uninterp spec fn jpeg_encoded(b: Seq<u8>, w: u32, h: u32, quality: u8) -> Option<Seq<u8>>;

/// What lossless WebP encoding of an RGBA8 buffer yields; `None` where the
/// codec reports an error.
pub uninterp spec fn webp_encoded(b: Seq<u8>, w: u32, h: u32) -> Option<Seq<u8>>;

/// What alpha-blending one RGBA8 pixel over another yields, in the partial
/// case: `over` neither fully transparent nor fully opaque.
pub uninterp spec fn blend_rgba(under: Seq<u8>, over: Seq<u8>) -> Seq<u8>;

/// `x` clamped into `[lo, hi]`.
pub open spec fn clamp_int(x: int, lo: int, hi: int) -> int {
    if x < lo {
        lo
    } else if x > hi {
        hi
    } else {
        x
    }
}

/// `base` (`bw` x `bh`) with `top` (`tw` x `th`) composited at anchor
/// `(x, y)`: inside the clipped overlap of the two rectangles each base
/// pixel is composited with the top pixel above it (a fully transparent top
/// pixel leaves it unchanged, a fully opaque one replaces it, anything in
/// between is blended); every other byte of `base` is unchanged. The anchor
/// may be negative or reach past the base's edge; only the overlap is
/// touched.
pub open spec fn overlaid_rgba(
    base: Seq<u8>,
    bw: int,
    bh: int,
    top: Seq<u8>,
    tw: int,
    th: int,
    x: int,
    y: int,
) -> Seq<u8> {
    let obx = clamp_int(x, 0, bw);
    let oby = clamp_int(y, 0, bh);
    let otx = clamp_int(-x, 0, tw);
    let oty = clamp_int(-y, 0, th);
    let xr = clamp_int(x + tw, 0, bw) - obx;
    let yr = clamp_int(y + th, 0, bh) - oby;
    Seq::new(
        base.len(),
        |i: int|
            {
                let c = i % 4;
                let px = (i / 4) % bw;
                let py = (i / 4) / bw;
                if obx <= px < obx + xr && oby <= py < oby + yr {
                    let under = pixel_at(base, bw, px, py);
                    let over = pixel_at(top, tw, otx + px - obx, oty + py - oby);
                    (if over[3] == 0 {
                        under
                    } else if over[3] == 255 {
                        over
                    } else {
                        blend_rgba(under, over)
                    })[c]
                } else {
                    base[i]
                }
            },
    )
}

/// Relies on `image::ImageReader` (with the format guessed from the bytes),
/// `decode`, and `DynamicImage::into_rgba8`: the result is a function of the
/// input bytes alone, and an RGBA8 buffer holds width*height*4 bytes.
#[verifier::external_body]
pub(crate) fn decode_to_rgba(bytes: &Vec<u8>) -> (r: Option<(Vec<u8>, u32, u32)>)
    ensures
        match r {
            Some((px, w, h)) => decoded_image(bytes@) == Some((w, h, px@)) && px@.len() == 4 * (
            w as int) * (h as int),
            None => decoded_image(bytes@) is None,
        },
{
    let reader = image::ImageReader::new(std::io::Cursor::new(bytes.as_slice()))
        .with_guessed_format()
        .ok()?;
    let img = reader.decode().ok()?;
    let (w, h) = (img.width(), img.height());
    Some((img.into_rgba8().into_raw(), w, h))
}

/// Relies on `image::ImageReader::into_dimensions`: reading the declared
/// dimensions is a function of the input bytes alone.
#[verifier::external_body]
pub(crate) fn read_header_dims(bytes: &Vec<u8>) -> (r: Option<(u32, u32)>)
    ensures
        r == header_dims(bytes@),
{
    let reader = image::ImageReader::new(std::io::Cursor::new(bytes.as_slice()))
        .with_guessed_format()
        .ok()?;
    reader.into_dimensions().ok()
}

/// Relies on `image::imageops::resize` with the Lanczos3 kernel: the result
/// is a function of the input buffer and the dimensions alone and holds
/// exactly `tw * th` RGBA8 pixels.
#[verifier::external_body]
pub(crate) fn resize_rgba(px: &Vec<u8>, w: u32, h: u32, tw: u32, th: u32) -> (r: Vec<u8>)
    requires
        px@.len() == 4 * (w as int) * (h as int),
        4 * (tw as int) * (th as int) <= usize::MAX as int,
    ensures
        r@ == lanczos_rgba(px@, w, h, tw, th),
        r@.len() == 4 * (tw as int) * (th as int),
{
    let img = image::RgbaImage::from_raw(w, h, px.clone()).unwrap();
    image::imageops::resize(&img, tw, th, image::imageops::FilterType::Lanczos3).into_raw()
}

/// Relies on `image::imageops::crop_imm` and `SubImage::to_image`: returns
/// exactly the requested in-bounds sub-rectangle.
#[verifier::external_body]
pub(crate) fn crop_rgba(px: &Vec<u8>, w: u32, h: u32, x: u32, y: u32, cw: u32, ch: u32) -> (r: Vec<
    u8,
>)
    requires
        px@.len() == 4 * (w as int) * (h as int),
        x + cw <= w,
        y + ch <= h,
    ensures
        r@ == sub_rect(px@, w as int, x as int, y as int, cw as int, ch as int),
{
    let img = image::RgbaImage::from_raw(w, h, px.clone()).unwrap();
    image::imageops::crop_imm(&img, x, y, cw, ch).to_image().into_raw()
}

/// Relies on `image::imageops::flip_horizontal`: mirrors each row.
#[verifier::external_body]
pub(crate) fn flip_h_exec(px: &Vec<u8>, w: u32, h: u32) -> (r: Vec<u8>)
    requires
        px@.len() == 4 * (w as int) * (h as int),
    ensures
        r@ == flip_h_rgba(px@, w as int, h as int),
{
    let img = image::RgbaImage::from_raw(w, h, px.clone()).unwrap();
    image::imageops::flip_horizontal(&img).into_raw()
}

/// Relies on `image::imageops::flip_vertical`: mirrors the row order.
#[verifier::external_body]
pub(crate) fn flip_v_exec(px: &Vec<u8>, w: u32, h: u32) -> (r: Vec<u8>)
    requires
        px@.len() == 4 * (w as int) * (h as int),
    ensures
        r@ == flip_v_rgba(px@, w as int, h as int),
{
    let img = image::RgbaImage::from_raw(w, h, px.clone()).unwrap();
    image::imageops::flip_vertical(&img).into_raw()
}

/// Relies on `image::imageops::rotate90`: result pixel `(x, y)` is source
/// pixel `(y, h - 1 - x)`.
#[verifier::external_body]
pub(crate) fn rotate90_exec(px: &Vec<u8>, w: u32, h: u32) -> (r: Vec<u8>)
    requires
        px@.len() == 4 * (w as int) * (h as int),
    ensures
        r@ == rot90_rgba(px@, w as int, h as int),
{
    let img = image::RgbaImage::from_raw(w, h, px.clone()).unwrap();
    image::imageops::rotate90(&img).into_raw()
}

/// Relies on `image::imageops::rotate180`: result pixel `(x, y)` is source
/// pixel `(w - 1 - x, h - 1 - y)`.
#[verifier::external_body]
pub(crate) fn rotate180_exec(px: &Vec<u8>, w: u32, h: u32) -> (r: Vec<u8>)
    requires
        px@.len() == 4 * (w as int) * (h as int),
    ensures
        r@ == rot180_rgba(px@, w as int, h as int),
{
    let img = image::RgbaImage::from_raw(w, h, px.clone()).unwrap();
    image::imageops::rotate180(&img).into_raw()
}

/// Relies on `image::imageops::rotate270`: result pixel `(x, y)` is source
/// pixel `(w - 1 - y, x)`.
#[verifier::external_body]
pub(crate) fn rotate270_exec(px: &Vec<u8>, w: u32, h: u32) -> (r: Vec<u8>)
    requires
        px@.len() == 4 * (w as int) * (h as int),
    ensures
        r@ == rot270_rgba(px@, w as int, h as int),
{
    let img = image::RgbaImage::from_raw(w, h, px.clone()).unwrap();
    image::imageops::rotate270(&img).into_raw()
}

/// Relies on `GenericImage::copy_from`: replaces the in-bounds target
/// rectangle with `top` and leaves every other pixel untouched.
#[verifier::external_body]
pub(crate) fn paste_exec(
    base: &Vec<u8>,
    bw: u32,
    bh: u32,
    top: &Vec<u8>,
    tw: u32,
    th: u32,
    x: u32,
    y: u32,
) -> (r: Vec<u8>)
    requires
        base@.len() == 4 * (bw as int) * (bh as int),
        top@.len() == 4 * (tw as int) * (th as int),
        x + tw <= bw,
        y + th <= bh,
    ensures
        r@ == paste_rgba(base@, bw as int, top@, tw as int, th as int, x as int, y as int),
{
    let mut b = image::RgbaImage::from_raw(bw, bh, base.clone()).unwrap();
    let t = image::RgbaImage::from_raw(tw, th, top.clone()).unwrap();
    image::GenericImage::copy_from(&mut b, &t, x, y).unwrap();
    b.into_raw()
}

/// Relies on `image::imageops::overlay`: blends the top image over the
/// bottom inside the clipped overlap and leaves all other pixels untouched;
/// per pixel, image's `Rgba::blend` keeps the bottom pixel under a fully
/// transparent top pixel and replaces it under a fully opaque one.
#[verifier::external_body]
pub(crate) fn overlay_exec(
    base: &Vec<u8>,
    bw: u32,
    bh: u32,
    top: &Vec<u8>,
    tw: u32,
    th: u32,
    x: i64,
    y: i64,
) -> (r: Vec<u8>)
    requires
        base@.len() == 4 * (bw as int) * (bh as int),
        top@.len() == 4 * (tw as int) * (th as int),
    ensures
        r@ == overlaid_rgba(
            base@,
            bw as int,
            bh as int,
            top@,
            tw as int,
            th as int,
            x as int,
            y as int,
        ),
        forall|px: int, py: int|
            0 <= px < bw && 0 <= py < bh && x <= px < x + tw && y <= py < y + th && 0 < pixel_at(
                top@,
                tw as int,
                px - x,
                py - y,
            )[3] < 255 ==> pixel_at(r@, bw as int, px, py) == blend_rgba(
                pixel_at(base@, bw as int, px, py),
                pixel_at(top@, tw as int, px - x, py - y),
            ),
{
    let mut b = image::RgbaImage::from_raw(bw, bh, base.clone()).unwrap();
    let t = image::RgbaImage::from_raw(tw, th, top.clone()).unwrap();
    image::imageops::overlay(&mut b, &t, x, y);
    b.into_raw()
}

/// Relies on `image::codecs::png::PngEncoder::write_image` on RGBA8 bytes:
/// deterministic in its inputs; the error case carries the codec's message.
#[verifier::external_body]
pub(crate) fn encode_png_rgba(px: &Vec<u8>, w: u32, h: u32) -> (r: Result<Vec<u8>, String>)
    requires
        px@.len() == 4 * (w as int) * (h as int),
    ensures
        match r {
            Ok(v) => png_encoded(px@, w, h) == Some(v@),
            Err(_) => png_encoded(px@, w, h) is None,
        },
{
    let mut out: Vec<u8> = Vec::new();
    let enc = image::codecs::png::PngEncoder::new(std::io::Cursor::new(&mut out));
    match image::ImageEncoder::write_image(enc, px.as_slice(), w, h, image::ExtendedColorType::Rgba8)
    {
        Ok(()) => Ok(out),
        Err(e) => Err(e.to_string()),
    }
}

/// Relies on `image::codecs::jpeg::JpegEncoder::new_with_quality` and
/// `write_image` on RGB8 bytes: deterministic in its inputs; the error case
/// carries the codec's message.
#[verifier::external_body]
pub(crate) fn encode_jpeg_rgb(px: &Vec<u8>, w: u32, h: u32, quality: u8) -> (r: Result<
    Vec<u8>,
    String,
>)
    requires
        px@.len() == 3 * (w as int) * (h as int),
    ensures
        match r {
            Ok(v) => jpeg_encoded(px@, w, h, quality) == Some(v@),
            Err(_) => jpeg_encoded(px@, w, h, quality) is None,
        },
{
    let mut out: Vec<u8> = Vec::new();
    let enc = image::codecs::jpeg::JpegEncoder::new_with_quality(
        std::io::Cursor::new(&mut out),
        quality,
    );
    match image::ImageEncoder::write_image(enc, px.as_slice(), w, h, image::ExtendedColorType::Rgb8)
    {
        Ok(()) => Ok(out),
        Err(e) => Err(e.to_string()),
    }
}

/// Relies on `image::codecs::webp::WebPEncoder::new_lossless` and
/// `write_image` on RGBA8 bytes: deterministic in its inputs; the error case
/// carries the codec's message.
#[verifier::external_body]
pub(crate) fn encode_webp_rgba(px: &Vec<u8>, w: u32, h: u32) -> (r: Result<Vec<u8>, String>)
    requires
        px@.len() == 4 * (w as int) * (h as int),
    ensures
        match r {
            Ok(v) => webp_encoded(px@, w, h) == Some(v@),
            Err(_) => webp_encoded(px@, w, h) is None,
        },
{
    let mut out: Vec<u8> = Vec::new();
    let enc = image::codecs::webp::WebPEncoder::new_lossless(std::io::Cursor::new(&mut out));
    match image::ImageEncoder::write_image(enc, px.as_slice(), w, h, image::ExtendedColorType::Rgba8)
    {
        Ok(()) => Ok(out),
        Err(e) => Err(e.to_string()),
    }
}

} // verus!
