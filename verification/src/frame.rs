//! The producer's side of a frame: the bracket of start and end markers
//! around the operations that the scene pushes.
use crate::ops::{InternalOp, RenderOp};
use vstd::prelude::*;

verus! {

/// What every frame needs: the camera, and whether light volumes are
/// outlined for debugging.
pub struct FrameConfig<P> {
    pub camera: P,
    pub show_lightvolume_outline: bool,
}

/// A frame under construction. Each call hands back the items to put into
/// the operation queue, in order.
pub struct Frame<P> {
    pub config: FrameConfig<P>,
}

impl<P: Copy> Frame<P> {
    /// Opens the frame: the start marker, then the camera of `config`, so
    /// that the camera is set before anything is drawn.
    pub fn new(config: FrameConfig<P>) -> (r: (Self, Vec<RenderOp<P>>))
        ensures
            r.0.config == config,
            r.1@.len() == 2,
            r.1@[0] is StartFrame,
            r.1@[1] == RenderOp::SetCamera(config.camera),
    {
        let mut items: Vec<RenderOp<P>> = Vec::new();
        items.push(RenderOp::StartFrame(InternalOp::do_not_call_this()));
        items.push(RenderOp::SetCamera(config.camera));
        (Frame { config }, items)
    }

    /// Adds one operation. A composite is taken apart: its members go
    /// into the queue one by one and in order.
    pub fn push(&mut self, op: RenderOp<P>) -> (r: Vec<RenderOp<P>>)
        ensures
            r@ == op.flattened(),
            final(self).config == old(self).config,
    {
        match op {
            RenderOp::Multiple(ops_list) => ops_list,
            other => {
                let mut items: Vec<RenderOp<P>> = Vec::new();
                items.push(other);
                assert(items@ =~= seq![other]);
                items
            },
        }
    }

    /// Closes the frame with its end marker. The frame is used up: nothing
    /// can be pushed after it.
    pub fn end(self) -> (r: RenderOp<P>)
        ensures
            r is EndFrame,
    {
        RenderOp::EndFrame(InternalOp::do_not_call_this())
    }
}

/// Pushing a composite of operations that are no composites themselves
/// puts each member into the queue by itself, in the order given, and no
/// composite with them.
pub proof fn lemma_push_flattens<P>(members: Vec<RenderOp<P>>)
    requires
        forall|i: int| 0 <= i < members@.len() ==> !(#[trigger] members@[i]).is_multiple(),
    ensures
        RenderOp::Multiple(members).flattened() == members@,
        forall|i: int|
            0 <= i < RenderOp::Multiple(members).flattened().len() ==> !(
            #[trigger] RenderOp::Multiple(members).flattened()[i]).is_multiple(),
{
}

} // verus!
