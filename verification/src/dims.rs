//! The dimension model: a pure fold over the operation list that predicts the
//! size of the rendered image at every prefix, without touching pixel data.
//!
//! `spec_dims` is the mathematical model; `TransformSpec::get_current_size`
//! computes it. The aspect-preserving scale arithmetic rounds to nearest
//! (ties away from zero) with a minimum of 1x1, and clamps to `u32::MAX`.
use vstd::prelude::*;

use crate::ops::OpModel;
use crate::ops::SpecModel;
use crate::ops::TransformSpec;
use crate::ops::lemma_ops_model_index;
use crate::ops::lemma_ops_model_len;
use crate::ops::spec_model;
use crate::ops::with_op;
use crate::types::ResizeMode;
use crate::types::RotationMode;

verus! {

/// `x`, raised to 1 if it lies below 1.
pub open spec fn max1(x: int) -> int {
    if x < 1 {
        1
    } else {
        x
    }
}

/// `x`, lowered to `u32::MAX` if it lies above it.
pub open spec fn cap_u32(x: int) -> int {
    if x > u32::MAX as int {
        u32::MAX as int
    } else {
        x
    }
}

/// `a / b` rounded to the nearest integer, ties rounded up (away from zero
/// for the nonnegative values used here).
pub open spec fn round_ratio(a: int, b: int) -> int {
    (2 * a + b) / (2 * b)
}

/// The size an aspect-preserving scale produces: the source aspect ratio of
/// `(w, h)` is kept, and the result covers (`fill`) or fits within (`!fill`)
/// the `(tw, th)` box, rounded to nearest with a minimum of 1x1 and clamped
/// to `u32::MAX` per axis.
pub open spec fn spec_aspect_dims(w: int, h: int, tw: int, th: int, fill: bool) -> (int, int) {
    let use_w = if fill {
        tw * h >= th * w
    } else {
        tw * h <= th * w
    };
    let nw = if use_w {
        max1(tw)
    } else {
        max1(round_ratio(w * th, h))
    };
    let nh = if use_w {
        max1(round_ratio(h * tw, w))
    } else {
        max1(th)
    };
    if nw > u32::MAX as int {
        (u32::MAX as int, cap_u32(max1(round_ratio(h * (u32::MAX as int), w))))
    } else if nh > u32::MAX as int {
        (cap_u32(max1(round_ratio(w * (u32::MAX as int), h))), u32::MAX as int)
    } else {
        (nw, nh)
    }
}

/// The size transition of a single operation, applied to the tracked size
/// `(w, h)`.
pub open spec fn op_dims(w: int, h: int, op: OpModel) -> (int, int) {
    match op {
        OpModel::Scale { width, height, mode } => match mode {
            ResizeMode::Exact => (width as int, height as int),
            ResizeMode::Fill => (width as int, height as int),
            ResizeMode::Fit => spec_aspect_dims(w, h, width as int, height as int, false),
        },
        OpModel::Crop { width, height, .. } => (width as int, height as int),
        OpModel::CropCenter { width, height } => (width as int, height as int),
        OpModel::Pad { left, right, top, bottom, .. } => (
            w + left as int + right as int,
            h + top as int + bottom as int,
        ),
        OpModel::FlipV => (w, h),
        OpModel::FlipH => (w, h),
        OpModel::Rotate { mode } => match mode {
            RotationMode::CW90 => (h, w),
            RotationMode::CW180 => (w, h),
            RotationMode::CW270 => (h, w),
        },
        OpModel::Overlay { .. } => (w, h),
    }
}

/// The tracked size after the first `n` operations of `ops`, starting from
/// `(w, h)`.
pub open spec fn dims_from(w: int, h: int, ops: Seq<OpModel>, n: int) -> (int, int)
    decreases n,
{
    if n <= 0 {
        (w, h)
    } else {
        let prev = dims_from(w, h, ops, n - 1);
        op_dims(prev.0, prev.1, ops[n - 1])
    }
}

/// The size a full render of `m` produces.
pub open spec fn spec_dims(m: SpecModel) -> (int, int) {
    dims_from(m.width as int, m.height as int, m.ops, m.ops.len() as int)
}

/// What one step needs so that the tracked size stays representable: the
/// resulting size fits in `u32`, and an aspect-preserving scale starts from a
/// nonempty image.
pub open spec fn op_dims_ok(w: int, h: int, op: OpModel) -> bool {
    &&& 0 <= op_dims(w, h, op).0 <= u32::MAX as int
    &&& 0 <= op_dims(w, h, op).1 <= u32::MAX as int
    &&& (op matches OpModel::Scale { mode: ResizeMode::Fit, .. } ==> 1 <= w && 1 <= h)
}

/// `op_dims_ok` at every step from `n` on.
pub open spec fn dims_supported_from(w: int, h: int, ops: Seq<OpModel>, n: int) -> bool
    decreases ops.len() - n,
{
    n >= ops.len() || {
        let cur = dims_from(w, h, ops, n);
        op_dims_ok(cur.0, cur.1, ops[n]) && dims_supported_from(w, h, ops, n + 1)
    }
}

/// The whole operation list of `m` keeps the tracked size representable.
/// Every spec built through the builder's validated appends satisfies this
/// unless a pad pushes a dimension past `u32::MAX`.
pub open spec fn dims_supported(m: SpecModel) -> bool {
    dims_supported_from(m.width as int, m.height as int, m.ops, 0)
}

pub proof fn lemma_supported_from_at(w: int, h: int, ops: Seq<OpModel>, n: int, i: int)
    requires
        dims_supported_from(w, h, ops, n),
        0 <= n <= i < ops.len(),
    ensures
        op_dims_ok(dims_from(w, h, ops, i).0, dims_from(w, h, ops, i).1, ops[i]),
    decreases i - n,
{
    if i > n {
        lemma_supported_from_at(w, h, ops, n + 1, i);
    }
}

pub proof fn lemma_dims_from_push(w: int, h: int, ops: Seq<OpModel>, op: OpModel, n: int)
    requires
        0 <= n <= ops.len(),
    ensures
        dims_from(w, h, ops.push(op), n) == dims_from(w, h, ops, n),
    decreases n,
{
    if n > 0 {
        lemma_dims_from_push(w, h, ops, op, n - 1);
    }
}

pub proof fn lemma_supported_from_push(w: int, h: int, ops: Seq<OpModel>, op: OpModel, n: int)
    requires
        0 <= n <= ops.len(),
    ensures
        dims_supported_from(w, h, ops.push(op), n) <==> dims_supported_from(w, h, ops, n)
            && op_dims_ok(
            dims_from(w, h, ops, ops.len() as int).0,
            dims_from(w, h, ops, ops.len() as int).1,
            op,
        ),
    decreases ops.len() - n,
{
    lemma_dims_from_push(w, h, ops, op, n);
    if n < ops.len() {
        lemma_supported_from_push(w, h, ops, op, n + 1);
    } else {
        lemma_dims_from_push(w, h, ops, op, ops.len() as int);
        assert(dims_supported_from(w, h, ops.push(op), n + 1));
    }
}

/// The dimension model steps compositionally: after appending `op`, the
/// tracked size is the per-operation transition applied to the size tracked
/// before the append.
pub proof fn lemma_dims_step(m: SpecModel, op: OpModel)
    ensures
        spec_dims(with_op(m, op)) == op_dims(spec_dims(m).0, spec_dims(m).1, op),
{
    lemma_dims_from_push(m.width as int, m.height as int, m.ops, op, m.ops.len() as int);
}

/// Appending an operation keeps the tracked size representable exactly when
/// it was representable before and the new step is representable at the
/// pre-append size.
pub proof fn lemma_dims_supported_step(m: SpecModel, op: OpModel)
    ensures
        dims_supported(with_op(m, op)) <==> dims_supported(m) && op_dims_ok(
            spec_dims(m).0,
            spec_dims(m).1,
            op,
        ),
{
    lemma_supported_from_push(m.width as int, m.height as int, m.ops, op, 0);
}

/// An aspect-preserving scale to the image's own size leaves it unchanged.
pub proof fn lemma_aspect_identity(w: int, h: int)
    requires
        1 <= w <= u32::MAX as int,
        1 <= h <= u32::MAX as int,
    ensures
        spec_aspect_dims(w, h, w, h, false) == (w, h),
        spec_aspect_dims(w, h, w, h, true) == (w, h),
{
    assert((2 * (h * w) + w) / (2 * w) == h) by (nonlinear_arith)
        requires
            1 <= w,
            0 <= h,
    ;
    assert(w * h == h * w) by (nonlinear_arith);
    assert(round_ratio(h * w, w) == h);
    assert(max1(w) == w && max1(h) == h);
    assert(spec_aspect_dims(w, h, w, h, false) == (w, h));
    assert(spec_aspect_dims(w, h, w, h, true) == (w, h));
}

fn round_ratio_exec(a: u128, b: u128) -> (r: u128)
    requires
        1 <= b <= u64::MAX as u128,
        a <= u64::MAX as u128,
    ensures
        r as int == round_ratio(a as int, b as int),
{
    (2 * a + b) / (2 * b)
}

/// The executable aspect-preserving scale arithmetic.
pub fn aspect_dims(w: u32, h: u32, tw: u32, th: u32, fill: bool) -> (r: (u32, u32))
    requires
        1 <= w,
        1 <= h,
    ensures
        r.0 as int == spec_aspect_dims(w as int, h as int, tw as int, th as int, fill).0,
        r.1 as int == spec_aspect_dims(w as int, h as int, tw as int, th as int, fill).1,
{
    proof {
        assert((tw as int) * (h as int) <= (u32::MAX as int) * (u32::MAX as int)
            && (th as int) * (w as int) <= (u32::MAX as int) * (u32::MAX as int) && (h as int) * (
        tw as int) <= (u32::MAX as int) * (u32::MAX as int) && (w as int) * (th as int) <= (
        u32::MAX as int) * (u32::MAX as int) && (w as int) * (u32::MAX as int) <= (u32::MAX as int)
            * (u32::MAX as int) && (h as int) * (u32::MAX as int) <= (u32::MAX as int) * (
        u32::MAX as int)) by (nonlinear_arith)
            requires
                0 <= tw <= u32::MAX,
                0 <= th <= u32::MAX,
                1 <= w <= u32::MAX,
                1 <= h <= u32::MAX,
        ;
    }
    let wcross: u64 = (tw as u64) * (h as u64);
    let hcross: u64 = (th as u64) * (w as u64);
    let use_w: bool = if fill {
        wcross >= hcross
    } else {
        wcross <= hcross
    };
    if use_w {
        let nw: u32 = if tw < 1 {
            1
        } else {
            tw
        };
        let nh_r: u128 = round_ratio_exec((h as u128) * (tw as u128), w as u128);
        let nh_m: u128 = if nh_r < 1 {
            1
        } else {
            nh_r
        };
        if nh_m > u32::MAX as u128 {
            let aw_r: u128 = round_ratio_exec((w as u128) * (u32::MAX as u128), h as u128);
            let aw_m: u128 = if aw_r < 1 {
                1
            } else {
                aw_r
            };
            let aw: u32 = if aw_m > u32::MAX as u128 {
                u32::MAX
            } else {
                aw_m as u32
            };
            (aw, u32::MAX)
        } else {
            (nw, nh_m as u32)
        }
    } else {
        let nw_r: u128 = round_ratio_exec((w as u128) * (th as u128), h as u128);
        let nw_m: u128 = if nw_r < 1 {
            1
        } else {
            nw_r
        };
        let nh: u32 = if th < 1 {
            1
        } else {
            th
        };
        if nw_m > u32::MAX as u128 {
            let ah_r: u128 = round_ratio_exec((h as u128) * (u32::MAX as u128), w as u128);
            let ah_m: u128 = if ah_r < 1 {
                1
            } else {
                ah_r
            };
            let ah: u32 = if ah_m > u32::MAX as u128 {
                u32::MAX
            } else {
                ah_m as u32
            };
            (u32::MAX, ah)
        } else {
            (nw_m as u32, nh)
        }
    }
}

impl TransformSpec {
    /// The size the full operation list produces, computed without touching
    /// pixel data.
    #[verifier::loop_isolation(false)]
    pub fn get_current_size(&self) -> (r: (u32, u32))
        requires
            dims_supported(self@),
        ensures
            r.0 as int == spec_dims(self@).0,
            r.1 as int == spec_dims(self@).1,
    {
        proof {
            lemma_ops_model_len(self.ops@);
        }
        let mut w: u32 = self.width;
        let mut h: u32 = self.height;
        let mut i: usize = 0;
        while i < self.ops.len()
            invariant
                0 <= i <= self.ops@.len(),
                w as int == dims_from(self@.width as int, self@.height as int, self@.ops, i as int).0,
                h as int == dims_from(self@.width as int, self@.height as int, self@.ops, i as int).1,
            decreases self.ops@.len() - i,
        {
            proof {
                lemma_supported_from_at(
                    self@.width as int,
                    self@.height as int,
                    self@.ops,
                    0,
                    i as int,
                );
                lemma_ops_model_index(self.ops@, i as int);
            }
            match &self.ops[i] {
                crate::ops::TransformOps::Scale(s) => {
                    match s.mode {
                        ResizeMode::Exact => {
                            w = s.width;
                            h = s.height;
                        },
                        ResizeMode::Fill => {
                            w = s.width;
                            h = s.height;
                        },
                        ResizeMode::Fit => {
                            let r = aspect_dims(w, h, s.width, s.height, false);
                            w = r.0;
                            h = r.1;
                        },
                    }
                },
                crate::ops::TransformOps::Crop(c) => {
                    w = c.width;
                    h = c.height;
                },
                crate::ops::TransformOps::CropCenter(c) => {
                    w = c.width;
                    h = c.height;
                },
                crate::ops::TransformOps::Pad(p) => {
                    let nw64: u64 = w as u64 + p.left as u64 + p.right as u64;
                    let nh64: u64 = h as u64 + p.top as u64 + p.bottom as u64;
                    w = nw64 as u32;
                    h = nh64 as u32;
                },
                crate::ops::TransformOps::FlipV => {},
                crate::ops::TransformOps::FlipH => {},
                crate::ops::TransformOps::Rotate(mode) => {
                    match mode {
                        RotationMode::CW90 => {
                            let t = w;
                            w = h;
                            h = t;
                        },
                        RotationMode::CW180 => {},
                        RotationMode::CW270 => {
                            let t = w;
                            w = h;
                            h = t;
                        },
                    }
                },
                crate::ops::TransformOps::Overlay(_, _, _) => {},
            }
            i = i + 1;
        }
        (w, h)
    }
}

} // verus!
