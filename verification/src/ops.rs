//! The operations of a frame.
//!
//! An operation carries what the renderer decides on (the chamber it
//! belongs to, whether it casts a shadow) as plain fields, and everything
//! else (meshes, transforms, colours) as a payload of the caller's type
//! `P`, which the renderer passes on untouched.
use vstd::prelude::*;

verus! {

pub type ChamberIndex = u32;

/// Marks the operations that only a frame itself creates.
#[derive(Debug)]
pub struct InternalOp {
    _creation_barrier: (),
}

impl InternalOp {
    pub fn do_not_call_this() -> (r: Self) {
        Self { _creation_barrier: () }
    }
}

#[derive(Debug)]
pub struct Object<P> {
    /// The mesh and its model transform.
    pub body: P,
    /// Whether the object counts in the shadow pass.
    pub shadow: bool,
    /// Whether the object counts in the irradiance volume pass.
    pub irradiance_volume: bool,
    /// The chamber that the object belongs to.
    pub chamber_index: ChamberIndex,
}

#[derive(Debug)]
pub struct DrawGeneral<P> {
    pub object: Object<P>,
    pub surface: P,
}

#[derive(Debug)]
pub struct DrawEmissiveStatic<P> {
    pub object: Object<P>,
    pub surface: P,
    /// The strength of an additional point light that approximates the
    /// emission, if one is wanted.
    pub point_light: Option<P>,
}

#[derive(Debug)]
pub struct DrawEmissiveDynamic<P> {
    pub object: Object<P>,
    pub materials: P,
    pub surface: P,
}

#[derive(Debug)]
pub struct DrawLine<P> {
    pub line: P,
}

#[derive(Debug)]
pub struct DrawWireFrame<P> {
    pub frame: P,
}

/// A point light that casts shadows.
#[derive(Debug)]
pub struct AddMajorLight<P> {
    pub light: P,
    pub chamber_index: ChamberIndex,
}

/// A plain point light.
#[derive(Debug)]
pub struct AddPointLight<P> {
    pub light: P,
    pub chamber_index: ChamberIndex,
}

#[derive(Debug)]
pub struct AddAmbientLight<P> {
    pub color: P,
    /// Whether the light shines from every direction.
    pub omni: bool,
    pub chamber_index: ChamberIndex,
}

/// Shades a chamber with its irradiance volume. Once per chamber and frame.
#[derive(Debug)]
pub struct ShadeWithIv<P> {
    pub chamber_index: ChamberIndex,
    /// Scales the illumination.
    pub weight: P,
}

#[derive(Debug)]
pub struct DrawImage<P> {
    pub image: P,
}

#[derive(Debug)]
pub struct DrawBillboard<P> {
    pub billboard: P,
}

#[derive(Debug)]
pub struct DrawMutableImage {}

#[derive(Debug)]
pub struct VisualizeProbes {
    pub chamber_index: ChamberIndex,
}

#[derive(Debug)]
pub struct ShowInternalTexture<P> {
    pub name: String,
    pub placement: P,
}

#[derive(Debug)]
pub enum RenderOp<P> {
    StartFrame(InternalOp),
    Abort(InternalOp),
    EndFrame(InternalOp),
    SetCamera(P),
    DrawLine(DrawLine<P>),
    DrawWireFrame(DrawWireFrame<P>),
    DrawGeneral(DrawGeneral<P>),
    DrawEmissiveStatic(DrawEmissiveStatic<P>),
    DrawEmissiveDynamic(DrawEmissiveDynamic<P>),
    AddMajorLight(AddMajorLight<P>),
    AddPointLight(AddPointLight<P>),
    AddAmbientLight(AddAmbientLight<P>),
    ShadeWithIv(ShadeWithIv<P>),
    DrawImage(DrawImage<P>),
    DrawBillboard(DrawBillboard<P>),
    DrawMutableImage(DrawMutableImage),
    VisualizeProbes(VisualizeProbes),
    ShowInternalTexture(ShowInternalTexture<P>),
    /// Several operations in one.
    Multiple(Vec<RenderOp<P>>),
}

impl<P> RenderOp<P> {
    /// Whether the operation is a composite.
    pub open spec fn is_multiple(self) -> bool {
        self is Multiple
    }

    /// The operations that the renderer dispatches one by one: everything
    /// but composites, the frame's own end and abort markers, and the two
    /// kinds that no pass draws.
    pub open spec fn dispatchable(self) -> bool {
        !(self is Multiple) && !(self is Abort) && !(self is EndFrame) && !(self
            is DrawEmissiveDynamic) && !(self is DrawMutableImage)
    }

    /// What travels through the queue as one item: a dispatchable
    /// operation, or a composite of dispatchable operations.
    pub open spec fn deliverable(self) -> bool {
        match self {
            RenderOp::Multiple(v) => forall|i: int|
                0 <= i < v@.len() ==> (#[trigger] v@[i]).dispatchable(),
            _ => self.dispatchable(),
        }
    }

    /// The chamber that the operation names, if it names one.
    pub open spec fn chamber(self) -> Option<ChamberIndex> {
        match self {
            RenderOp::DrawGeneral(d) => Some(d.object.chamber_index),
            RenderOp::DrawEmissiveStatic(d) => Some(d.object.chamber_index),
            RenderOp::AddMajorLight(l) => Some(l.chamber_index),
            RenderOp::AddPointLight(l) => Some(l.chamber_index),
            RenderOp::AddAmbientLight(l) => Some(l.chamber_index),
            RenderOp::ShadeWithIv(s) => Some(s.chamber_index),
            RenderOp::VisualizeProbes(v) => Some(v.chamber_index),
            _ => None,
        }
    }

    /// The items that a push of this operation puts into the queue: the
    /// members of a composite one by one and in order, any other operation
    /// as it is.
    pub open spec fn flattened(self) -> Seq<RenderOp<P>> {
        match self {
            RenderOp::Multiple(v) => v@,
            _ => seq![self],
        }
    }

    /// Whether the operation is dispatchable.
    pub fn is_dispatchable(&self) -> (r: bool)
        ensures
            r == self.dispatchable(),
    {
        match self {
            RenderOp::Multiple(_) => false,
            RenderOp::Abort(_) => false,
            RenderOp::EndFrame(_) => false,
            RenderOp::DrawEmissiveDynamic(_) => false,
            RenderOp::DrawMutableImage(_) => false,
            _ => true,
        }
    }

    /// Whether the operation can travel through the queue as one item.
    pub fn is_deliverable(&self) -> (r: bool)
        ensures
            r == self.deliverable(),
    {
        match self {
            RenderOp::Multiple(v) => {
                let mut i: usize = 0;
                while i < v.len()
                    invariant
                        *self == RenderOp::Multiple(*v),
                        i <= v@.len(),
                        forall|j: int| 0 <= j < i ==> (#[trigger] v@[j]).dispatchable(),
                    decreases v@.len() - i,
                {
                    if !v[i].is_dispatchable() {
                        assert(self->Multiple_0 == *v);
                        assert(self.deliverable() ==> v@[i as int].dispatchable());
                        return false;
                    }
                    i = i + 1;
                }
                true
            },
            _ => self.is_dispatchable(),
        }
    }
}

/// Whatever a deliverable queue item is taken apart into is dispatched
/// piece by piece, and no piece is a composite.
pub proof fn lemma_deliverable_items_are_plain<P>(op: RenderOp<P>)
    requires
        op.deliverable(),
    ensures
        forall|i: int|
            0 <= i < op.flattened().len() ==> (#[trigger] op.flattened()[i]).dispatchable() && !op.flattened()[i].is_multiple(),
{
}

} // verus!
