//! The operation catalog and the transform spec: the persistent state of the
//! builder, together with its ghost model.
//!
//! A `TransformSpec` owns (or shares, through `Arc`) its source bytes and an
//! append-only list of operations. Contracts never speak of the executable
//! types directly; they speak of `SpecModel`, the mathematical image of a
//! spec, reached through `spec_model` (or the `View` impl).
use vstd::prelude::*;

use crate::types::PixelFormat;
use crate::types::ResizeMode;
use crate::types::RgbaValue;
use crate::types::RotationMode;
use std::sync::Arc;

verus! {

/// Parameters of a scale step.
#[derive(Clone, Copy)]
pub struct ScaleOp {
    pub width: u32,
    pub height: u32,
    pub mode: ResizeMode,
}

/// Parameters of a crop step with an explicit offset.
#[derive(Clone, Copy)]
pub struct CropOp {
    pub width: u32,
    pub height: u32,
    pub x: u32,
    pub y: u32,
}

/// Parameters of a centered crop step.
#[derive(Clone, Copy)]
pub struct CropCenterOp {
    pub width: u32,
    pub height: u32,
}

/// Parameters of a pad step.
#[derive(Clone, Copy)]
pub struct PadOp {
    pub left: u32,
    pub right: u32,
    pub top: u32,
    pub bottom: u32,
    pub fill_color: RgbaValue,
}

/// One step of a transform sequence.
pub enum TransformOps {
    Scale(ScaleOp),
    Crop(CropOp),
    CropCenter(CropCenterOp),
    Pad(PadOp),
    FlipV,
    FlipH,
    Rotate(RotationMode),
    Overlay(TransformSpec, i64, i64),
}

/// A source image plus an ordered sequence of operations.
///
/// The source bytes are shared read-only: cloning or duplicating a spec never
/// copies pixel data. `format` is `Some` for a raw pixel buffer and `None`
/// for container-encoded bytes whose dimensions were read from the header.
/// Use [`TransformSpec::duplicate`] to obtain an equivalent copy that shares
/// the source bytes.
pub struct TransformSpec {
    pub buffer: Arc<Vec<u8>>,
    pub width: u32,
    pub height: u32,
    pub format: Option<PixelFormat>,
    pub ops: Vec<TransformOps>,
}

/// The mathematical image of one operation.
pub enum OpModel {
    Scale { width: u32, height: u32, mode: ResizeMode },
    Crop { x: u32, y: u32, width: u32, height: u32 },
    CropCenter { width: u32, height: u32 },
    Pad { left: u32, right: u32, top: u32, bottom: u32, fill_color: RgbaValue },
    FlipV,
    FlipH,
    Rotate { mode: RotationMode },
    Overlay { other: SpecModel, x: i64, y: i64 },
}

/// The mathematical image of a transform spec.
pub struct SpecModel {
    pub bytes: Seq<u8>,
    pub width: u32,
    pub height: u32,
    pub format: Option<PixelFormat>,
    pub ops: Seq<OpModel>,
}

/// The model of one executable operation.
pub open spec fn op_model(op: TransformOps) -> OpModel
    decreases op,
{
    match op {
        TransformOps::Scale(s) => OpModel::Scale {
            width: s.width,
            height: s.height,
            mode: s.mode,
        },
        TransformOps::Crop(c) => OpModel::Crop {
            x: c.x,
            y: c.y,
            width: c.width,
            height: c.height,
        },
        TransformOps::CropCenter(c) => OpModel::CropCenter { width: c.width, height: c.height },
        TransformOps::Pad(p) => OpModel::Pad {
            left: p.left,
            right: p.right,
            top: p.top,
            bottom: p.bottom,
            fill_color: p.fill_color,
        },
        TransformOps::FlipV => OpModel::FlipV,
        TransformOps::FlipH => OpModel::FlipH,
        TransformOps::Rotate(mode) => OpModel::Rotate { mode },
        TransformOps::Overlay(other, x, y) => OpModel::Overlay {
            other: spec_model(other),
            x,
            y,
        },
    }
}

/// The model of an executable operation sequence, element by element.
pub open spec fn ops_model(s: Seq<TransformOps>) -> Seq<OpModel>
    decreases s,
{
    if s.len() == 0 {
        Seq::empty()
    } else {
        seq![op_model(s[0])] + ops_model(s.subrange(1, s.len() as int))
    }
}

/// The model of an executable transform spec.
pub open spec fn spec_model(t: TransformSpec) -> SpecModel
    decreases t,
{
    SpecModel {
        bytes: t.buffer@,
        width: t.width,
        height: t.height,
        format: t.format,
        ops: ops_model(t.ops@),
    }
}

impl View for TransformSpec {
    type V = SpecModel;

    open spec fn view(&self) -> SpecModel {
        spec_model(*self)
    }
}

/// The model of a spec after appending one more operation.
pub open spec fn with_op(m: SpecModel, op: OpModel) -> SpecModel {
    SpecModel { ops: m.ops.push(op), ..m }
}

pub proof fn lemma_ops_model_len(s: Seq<TransformOps>)
    ensures
        ops_model(s).len() == s.len(),
    decreases s,
{
    if s.len() > 0 {
        lemma_ops_model_len(s.subrange(1, s.len() as int));
    }
}

pub proof fn lemma_ops_model_index(s: Seq<TransformOps>, i: int)
    requires
        0 <= i < s.len(),
    ensures
        ops_model(s)[i] == op_model(s[i]),
    decreases s,
{
    lemma_ops_model_len(s);
    if i > 0 {
        lemma_ops_model_index(s.subrange(1, s.len() as int), i - 1);
    }
}

pub proof fn lemma_ops_model_push(s: Seq<TransformOps>, op: TransformOps)
    ensures
        ops_model(s.push(op)) == ops_model(s).push(op_model(op)),
    decreases s,
{
    if s.len() == 0 {
        assert(s.push(op)[0] == op);
        assert(s.push(op).subrange(1, s.push(op).len() as int) =~= Seq::<TransformOps>::empty());
        assert(ops_model(Seq::<TransformOps>::empty()) == Seq::<OpModel>::empty());
        assert(ops_model(s.push(op)) =~= ops_model(s).push(op_model(op)));
    } else {
        assert(s.push(op)[0] == s[0]);
        assert(s.push(op).subrange(1, s.push(op).len() as int) =~= s.subrange(
            1,
            s.len() as int,
        ).push(op));
        lemma_ops_model_push(s.subrange(1, s.len() as int), op);
        assert(ops_model(s.push(op)) =~= ops_model(s).push(op_model(op)));
    }
}

fn duplicate_op(op: &TransformOps) -> (r: TransformOps)
    ensures
        op_model(r) == op_model(*op),
    decreases *op,
{
    match op {
        TransformOps::Scale(s) => TransformOps::Scale(*s),
        TransformOps::Crop(c) => TransformOps::Crop(*c),
        TransformOps::CropCenter(c) => TransformOps::CropCenter(*c),
        TransformOps::Pad(p) => TransformOps::Pad(*p),
        TransformOps::FlipV => TransformOps::FlipV,
        TransformOps::FlipH => TransformOps::FlipH,
        TransformOps::Rotate(mode) => TransformOps::Rotate(*mode),
        TransformOps::Overlay(other, x, y) => {
            proof {
                assert(decreases_to!(*op => op->Overlay_0));
            }
            TransformOps::Overlay(other.duplicate(), *x, *y)
        },
    }
}

impl TransformSpec {
    /// A cheap duplicate with the same model: the source bytes are shared,
    /// only the operation list is copied.
    pub fn duplicate(&self) -> (r: TransformSpec)
        ensures
            r@ == self@,
        decreases *self,
    {
        let mut ops2: Vec<TransformOps> = Vec::new();
        let mut i: usize = 0;
        while i < self.ops.len()
            invariant
                0 <= i <= self.ops@.len(),
                ops_model(ops2@) == ops_model(self.ops@.subrange(0, i as int)),
            decreases self.ops@.len() - i,
        {
            proof {
                assert(decreases_to!(*self => self.ops));
                assert(decreases_to!(self.ops => self.ops@));
                assert(decreases_to!(self.ops@ => self.ops@[i as int]));
                assert(decreases_to!(*self => self.ops@[i as int]));
            }
            let ghost prev = ops2@;
            let op2 = duplicate_op(&self.ops[i]);
            ops2.push(op2);
            proof {
                lemma_ops_model_push(prev, op2);
                lemma_ops_model_push(self.ops@.subrange(0, i as int), self.ops@[i as int]);
                assert(self.ops@.subrange(0, i as int).push(self.ops@[i as int]) =~= self.ops@
                    .subrange(0, i as int + 1));
            }
            i = i + 1;
        }
        proof {
            assert(self.ops@.subrange(0, self.ops@.len() as int) =~= self.ops@);
        }
        TransformSpec {
            buffer: self.buffer.clone(),
            width: self.width,
            height: self.height,
            format: self.format,
            ops: ops2,
        }
    }
}

} // verus!
