//! Byte-level models of pixel buffers.
//!
//! A rendered image is an RGBA8 buffer: 4 bytes per pixel, rows top to
//! bottom, pixels left to right. The spec functions here give exact
//! formulas for the pure pixel rearrangements the pipeline performs (channel
//! conversion, sub-rectangle extraction, flips, rotations, solid fill,
//! rectangle paste); the executable conversions are verified against them.
use vstd::prelude::*;

use crate::types::RgbaValue;

verus! {

/// Byte index of channel `c` of pixel `(x, y)` in an RGBA8 buffer of width
/// `w`.
pub open spec fn rgba_idx(w: int, x: int, y: int, c: int) -> int {
    4 * (y * w + x) + c
}

/// The 4 bytes of pixel `(x, y)` in an RGBA8 buffer of width `w`.
pub open spec fn pixel_at(b: Seq<u8>, w: int, x: int, y: int) -> Seq<u8> {
    b.subrange(4 * (y * w + x), 4 * (y * w + x) + 4)
}

/// An RGB8 buffer expanded to RGBA8 with a fully opaque alpha channel.
pub open spec fn rgba_from_rgb(b: Seq<u8>) -> Seq<u8> {
    Seq::new(
        b.len() / 3 * 4,
        |i: int|
            if i % 4 == 3 {
                255u8
            } else {
                b[i / 4 * 3 + i % 4]
            },
    )
}

/// An RGBA8 buffer reduced to RGB8 by dropping the alpha channel.
pub open spec fn rgb_from_rgba(b: Seq<u8>) -> Seq<u8> {
    Seq::new(b.len() / 4 * 3, |i: int| b[i / 3 * 4 + i % 3])
}

/// Channel `c` of a color, in RGBA order.
pub open spec fn channel_of(color: RgbaValue, c: int) -> u8 {
    if c == 0 {
        color.red
    } else if c == 1 {
        color.green
    } else if c == 2 {
        color.blue
    } else {
        color.alpha
    }
}

/// A `w` x `h` RGBA8 buffer filled with one color.
pub open spec fn solid_rgba(w: int, h: int, color: RgbaValue) -> Seq<u8> {
    Seq::new((4 * w * h) as nat, |i: int| channel_of(color, i % 4))
}

/// The `cw` x `ch` sub-rectangle of a `w`-wide buffer starting at
/// `(x0, y0)`.
pub open spec fn sub_rect(b: Seq<u8>, w: int, x0: int, y0: int, cw: int, ch: int) -> Seq<u8> {
    Seq::new(
        (4 * cw * ch) as nat,
        |i: int|
            {
                let c = i % 4;
                let px = (i / 4) % cw;
                let py = (i / 4) / cw;
                b[rgba_idx(w, x0 + px, y0 + py, c)]
            },
    )
}

/// A `w` x `h` buffer mirrored left-to-right.
pub open spec fn flip_h_rgba(b: Seq<u8>, w: int, h: int) -> Seq<u8> {
    Seq::new(
        (4 * w * h) as nat,
        |i: int|
            {
                let c = i % 4;
                let px = (i / 4) % w;
                let py = (i / 4) / w;
                b[rgba_idx(w, w - 1 - px, py, c)]
            },
    )
}

/// A `w` x `h` buffer mirrored top-to-bottom.
pub open spec fn flip_v_rgba(b: Seq<u8>, w: int, h: int) -> Seq<u8> {
    Seq::new(
        (4 * w * h) as nat,
        |i: int|
            {
                let c = i % 4;
                let px = (i / 4) % w;
                let py = (i / 4) / w;
                b[rgba_idx(w, px, h - 1 - py, c)]
            },
    )
}

/// A `w` x `h` buffer rotated 90 degrees clockwise; the result is `h` wide
/// and `w` high, with result pixel `(x, y)` taken from source pixel
/// `(y, h - 1 - x)`.
pub open spec fn rot90_rgba(b: Seq<u8>, w: int, h: int) -> Seq<u8> {
    Seq::new(
        (4 * w * h) as nat,
        |i: int|
            {
                let c = i % 4;
                let px = (i / 4) % h;
                let py = (i / 4) / h;
                b[rgba_idx(w, py, h - 1 - px, c)]
            },
    )
}

/// A `w` x `h` buffer rotated 180 degrees.
pub open spec fn rot180_rgba(b: Seq<u8>, w: int, h: int) -> Seq<u8> {
    Seq::new(
        (4 * w * h) as nat,
        |i: int|
            {
                let c = i % 4;
                let px = (i / 4) % w;
                let py = (i / 4) / w;
                b[rgba_idx(w, w - 1 - px, h - 1 - py, c)]
            },
    )
}

/// A `w` x `h` buffer rotated 270 degrees clockwise; the result is `h` wide
/// and `w` high, with result pixel `(x, y)` taken from source pixel
/// `(w - 1 - y, x)`.
pub open spec fn rot270_rgba(b: Seq<u8>, w: int, h: int) -> Seq<u8> {
    Seq::new(
        (4 * w * h) as nat,
        |i: int|
            {
                let c = i % 4;
                let px = (i / 4) % h;
                let py = (i / 4) / h;
                b[rgba_idx(w, w - 1 - py, px, c)]
            },
    )
}

/// `base` (a `bw`-wide buffer) with the `tw` x `th` buffer `top` pasted at
/// `(x0, y0)`, replacing the pixels underneath.
pub open spec fn paste_rgba(
    base: Seq<u8>,
    bw: int,
    top: Seq<u8>,
    tw: int,
    th: int,
    x0: int,
    y0: int,
) -> Seq<u8> {
    Seq::new(
        base.len(),
        |i: int|
            {
                let c = i % 4;
                let px = (i / 4) % bw;
                let py = (i / 4) / bw;
                if x0 <= px < x0 + tw && y0 <= py < y0 + th {
                    top[rgba_idx(tw, px - x0, py - y0, c)]
                } else {
                    base[i]
                }
            },
    )
}

/// Expand an RGB8 buffer to RGBA8, alpha fully opaque.
#[verifier::loop_isolation(false)]
pub fn rgb_buffer_to_rgba(b: &Vec<u8>) -> (r: Vec<u8>)
    requires
        b@.len() % 3 == 0,
    ensures
        r@ == rgba_from_rgb(b@),
{
    let n: usize = b.len() / 3;
    let mut r: Vec<u8> = Vec::new();
    let mut j: usize = 0;
    while j < n
        invariant
            0 <= j <= n,
            r@.len() == 4 * j,
            forall|i: int| 0 <= i < 4 * j ==> r@[i] == rgba_from_rgb(b@)[i],
        decreases n - j,
    {
        r.push(b[3 * j]);
        r.push(b[3 * j + 1]);
        r.push(b[3 * j + 2]);
        r.push(255);
        proof {
            assert forall|i: int| 0 <= i < 4 * (j + 1) implies r@[i] == rgba_from_rgb(b@)[i] by {
                if i >= 4 * j {
                    let c = i % 4;
                    assert(i == 4 * j + c) by (nonlinear_arith)
                        requires
                            4 * j <= i < 4 * (j + 1),
                            c == i % 4,
                    ;
                    assert(i / 4 == j && i % 4 == c) by (nonlinear_arith)
                        requires
                            i == 4 * j + c,
                            0 <= c < 4,
                    ;
                }
            }
        }
        j = j + 1;
    }
    proof {
        assert(b@.len() / 3 == n);
        assert(r@ =~= rgba_from_rgb(b@));
    }
    r
}

/// Reduce an RGBA8 buffer to RGB8 by dropping the alpha channel.
#[verifier::loop_isolation(false)]
pub fn rgba_buffer_to_rgb(b: &Vec<u8>) -> (r: Vec<u8>)
    requires
        b@.len() % 4 == 0,
    ensures
        r@ == rgb_from_rgba(b@),
{
    let n: usize = b.len() / 4;
    let mut r: Vec<u8> = Vec::new();
    let mut j: usize = 0;
    while j < n
        invariant
            0 <= j <= n,
            r@.len() == 3 * j,
            forall|i: int| 0 <= i < 3 * j ==> r@[i] == rgb_from_rgba(b@)[i],
        decreases n - j,
    {
        r.push(b[4 * j]);
        r.push(b[4 * j + 1]);
        r.push(b[4 * j + 2]);
        proof {
            assert forall|i: int| 0 <= i < 3 * (j + 1) implies r@[i] == rgb_from_rgba(b@)[i] by {
                if i >= 3 * j {
                    let c = i % 3;
                    assert(i == 3 * j + c) by (nonlinear_arith)
                        requires
                            3 * j <= i < 3 * (j + 1),
                            c == i % 3,
                    ;
                    assert(i / 3 == j && i % 3 == c) by (nonlinear_arith)
                        requires
                            i == 3 * j + c,
                            0 <= c < 3,
                    ;
                }
            }
        }
        j = j + 1;
    }
    proof {
        assert(b@.len() / 4 == n);
        assert(r@ =~= rgb_from_rgba(b@));
    }
    r
}

/// Build a solid-color RGBA8 buffer of `w` x `h` pixels.
#[verifier::loop_isolation(false)]
pub fn solid_buffer(w: u32, h: u32, color: RgbaValue) -> (r: Vec<u8>)
    requires
        4 * (w as int) * (h as int) <= usize::MAX as int,
    ensures
        r@ == solid_rgba(w as int, h as int, color),
{
    proof {
        assert((w as int) * (h as int) * 4 == 4 * (w as int) * (h as int)
            && 0 <= (w as int) * (h as int)) by (nonlinear_arith);
    }
    let n: usize = ((w as u64) * (h as u64)) as usize;
    let mut r: Vec<u8> = Vec::new();
    let mut j: usize = 0;
    while j < n
        invariant
            0 <= j <= n,
            n == (w as int) * (h as int),
            r@.len() == 4 * j,
            forall|i: int| 0 <= i < 4 * j ==> r@[i] == solid_rgba(w as int, h as int, color)[i],
        decreases n - j,
    {
        r.push(color.red);
        r.push(color.green);
        r.push(color.blue);
        r.push(color.alpha);
        proof {
            assert forall|i: int| 0 <= i < 4 * (j + 1) implies r@[i] == solid_rgba(
                w as int,
                h as int,
                color,
            )[i] by {
                if i >= 4 * j {
                    let c = i % 4;
                    assert(i == 4 * j + c) by (nonlinear_arith)
                        requires
                            4 * j <= i < 4 * (j + 1),
                            c == i % 4,
                    ;
                    assert(4 * j + c < 4 * ((w as int) * (h as int))) by (nonlinear_arith)
                        requires
                            j < (w as int) * (h as int),
                            0 <= c < 4,
                    ;
                }
            }
        }
        j = j + 1;
    }
    proof {
        assert(r@ =~= solid_rgba(w as int, h as int, color));
    }
    r
}

} // verus!
