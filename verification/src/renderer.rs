//! The consumer's side of a frame: what each operation does to the
//! per-chamber accumulators, which draw it asks for, and what the frame
//! hands back at its end.
use crate::chamber::{Chamber, ProbeCapture};
use crate::log::{
    shade_request, shade_request_text, FrameLog, FrameLogView, OpError, OpErrorView,
};
use crate::ops::{
    AddAmbientLight, AddMajorLight, AddPointLight, ChamberIndex, DrawBillboard, DrawImage,
    RenderOp, ShadeWithIv, ShowInternalTexture,
};
use crate::render_unit::{Lighting, RenderUnit};
use vstd::prelude::*;
use vstd::string::*;

verus! {

/// What holds for a whole frame.
#[derive(Debug, Clone, Copy, PartialEq, Eq, Structural)]
pub struct RendererParams {
    pub debug_lightvolume_outline: bool,
    pub enable_shadow: bool,
    pub enable_irradiance_volume: bool,
}

impl Default for RendererParams {
    fn default() -> (r: Self)
        ensures
            r == (RendererParams {
                debug_lightvolume_outline: true,
                enable_shadow: false,
                enable_irradiance_volume: false,
            }),
    {
        Self {
            debug_lightvolume_outline: true,
            enable_irradiance_volume: false,
            enable_shadow: false,
        }
    }
}

/// An object that casts a shadow in its chamber.
#[derive(Debug)]
pub struct ChamberShadowObject<P> {
    pub body: P,
}

/// An emissive object that is drawn again when a probe looks at the world.
#[derive(Debug)]
pub struct ChamberEmissiveStaticObject<P> {
    pub body: P,
    pub surface: P,
}

/// What a frame has collected for one chamber.
pub struct ChamberContext<P, V, S> {
    pub chamber: Chamber<V, S>,
    pub major_lights: Vec<AddMajorLight<P>>,
    pub ambient_lights: Vec<AddAmbientLight<P>>,
    pub point_lights: Vec<AddPointLight<P>>,
    pub shadow_objects: Vec<ChamberShadowObject<P>>,
    pub emissive_static_objects: Vec<ChamberEmissiveStaticObject<P>>,
    pub billboards: Vec<DrawBillboard<P>>,
    pub shade_with_iv: Option<ShadeWithIv<P>>,
}

/// The lists of a chamber context as sequences.
pub struct ChamberRecord<P> {
    pub major_lights: Seq<AddMajorLight<P>>,
    pub ambient_lights: Seq<AddAmbientLight<P>>,
    pub point_lights: Seq<AddPointLight<P>>,
    pub shadow_objects: Seq<ChamberShadowObject<P>>,
    pub emissive_static_objects: Seq<ChamberEmissiveStaticObject<P>>,
    pub billboards: Seq<DrawBillboard<P>>,
    pub shade_with_iv: Option<ShadeWithIv<P>>,
}

impl<P> ChamberRecord<P> {
    /// Nothing collected yet.
    pub open spec fn empty() -> Self {
        ChamberRecord {
            major_lights: Seq::empty(),
            ambient_lights: Seq::empty(),
            point_lights: Seq::empty(),
            shadow_objects: Seq::empty(),
            emissive_static_objects: Seq::empty(),
            billboards: Seq::empty(),
            shade_with_iv: None,
        }
    }

    /// The record after an accepted operation of this chamber: a light
    /// joins its list, an object that casts a shadow joins the shadow
    /// casters, an emissive object joins the emissive ones as well, and a
    /// shading request is kept.
    pub open spec fn with(self, op: RenderOp<P>) -> Self {
        match op {
            RenderOp::DrawGeneral(d) => if d.object.shadow {
                ChamberRecord {
                    shadow_objects: self.shadow_objects.push(
                        ChamberShadowObject { body: d.object.body },
                    ),
                    ..self
                }
            } else {
                self
            },
            RenderOp::DrawEmissiveStatic(d) => ChamberRecord {
                shadow_objects: if d.object.shadow {
                    self.shadow_objects.push(ChamberShadowObject { body: d.object.body })
                } else {
                    self.shadow_objects
                },
                emissive_static_objects: self.emissive_static_objects.push(
                    ChamberEmissiveStaticObject { body: d.object.body, surface: d.surface },
                ),
                ..self
            },
            RenderOp::AddMajorLight(l) => ChamberRecord {
                major_lights: self.major_lights.push(l),
                ..self
            },
            RenderOp::AddPointLight(l) => ChamberRecord {
                point_lights: self.point_lights.push(l),
                ..self
            },
            RenderOp::AddAmbientLight(l) => ChamberRecord {
                ambient_lights: self.ambient_lights.push(l),
                ..self
            },
            RenderOp::ShadeWithIv(s) => ChamberRecord { shade_with_iv: Some(s), ..self },
            _ => self,
        }
    }
}

impl<P, V, S> ChamberContext<P, V, S> {
    pub open spec fn record(&self) -> ChamberRecord<P> {
        ChamberRecord {
            major_lights: self.major_lights@,
            ambient_lights: self.ambient_lights@,
            point_lights: self.point_lights@,
            shadow_objects: self.shadow_objects@,
            emissive_static_objects: self.emissive_static_objects@,
            billboards: self.billboards@,
            shade_with_iv: self.shade_with_iv,
        }
    }

    /// `after` is this context with nothing changed but the state of its
    /// chamber.
    pub open spec fn kept_but_state(&self, after: Self) -> bool {
        &&& after.chamber.config == self.chamber.config
        &&& after.major_lights == self.major_lights
        &&& after.ambient_lights == self.ambient_lights
        &&& after.point_lights == self.point_lights
        &&& after.shadow_objects == self.shadow_objects
        &&& after.emissive_static_objects == self.emissive_static_objects
        &&& after.billboards == self.billboards
        &&& after.shade_with_iv == self.shade_with_iv
    }

    /// The context of a chamber at the start of a frame: nothing collected.
    pub fn new(chamber: Chamber<V, S>) -> (r: Self)
        ensures
            r.chamber == chamber,
            r.record() == ChamberRecord::<P>::empty(),
    {
        ChamberContext {
            chamber,
            major_lights: Vec::new(),
            ambient_lights: Vec::new(),
            point_lights: Vec::new(),
            shadow_objects: Vec::new(),
            emissive_static_objects: Vec::new(),
            billboards: Vec::new(),
            shade_with_iv: None,
        }
    }
}

/// The draw that an operation asks for at once.
#[derive(Debug)]
pub enum RenderAction<P> {
    /// Bind the first deferred geometry pass.
    BindDeferredPass1,
    /// Hand the camera to every shader program that needs it.
    BroadcastCamera(P),
    DrawLine { unit: RenderUnit, line: P },
    DrawGeneral { unit: RenderUnit, object: P, surface: P },
    DrawEmissiveStatic { unit: RenderUnit, object: P, surface: P },
    DrawWireFrame { unit: RenderUnit, frame: P },
    /// Draw the outline of a major light's volume.
    OutlineLightVolume { unit: RenderUnit, light: P },
    /// Draw an indicator for every probe of the chamber.
    VisualizeProbes(ChamberIndex),
}

/// The state of a frame in the making.
pub struct RenderContext<P, V, S> {
    pub params: RendererParams,
    pub camera_info: Option<P>,
    pub chamber_contexts: Vec<Option<ChamberContext<P, V, S>>>,
    pub draw_images: Vec<DrawImage<P>>,
    pub draw_billboards: Vec<DrawBillboard<P>>,
    pub show_internal_textures: Vec<ShowInternalTexture<P>>,
}

/// The state of a frame in the making as plain values.
pub struct ContextView<P, V, S> {
    pub camera_info: Option<P>,
    pub chambers: Seq<Option<(Chamber<V, S>, ChamberRecord<P>)>>,
    pub draw_images: Seq<DrawImage<P>>,
    pub draw_billboards: Seq<DrawBillboard<P>>,
    pub show_internal_textures: Seq<ShowInternalTexture<P>>,
}

impl<P, V, S> ContextView<P, V, S> {
    /// Whether a chamber with this index takes part in the frame.
    pub open spec fn present(self, index: ChamberIndex) -> bool {
        index < self.chambers.len() && self.chambers[index as int].is_some()
    }

    /// Why an operation is dropped, if it is: it names a chamber that takes
    /// no part in the frame, or it asks for irradiance shading of a
    /// chamber that has such a request already.
    pub open spec fn rejection(self, op: RenderOp<P>) -> Option<OpErrorView> {
        match op.chamber() {
            Some(c) => if !self.present(c) {
                Some(OpErrorView::InvalidChamberAccess(c))
            } else if op is ShadeWithIv && self.chambers[c as int].unwrap().1.shade_with_iv.is_some() {
                Some(OpErrorView::InvalidShade(shade_request_text(c)))
            } else {
                None
            },
            None => None,
        }
    }

    /// The state after an operation. A dropped operation leaves no trace.
    pub open spec fn after(self, op: RenderOp<P>) -> Self {
        if self.rejection(op).is_some() {
            self
        } else {
            match op {
                RenderOp::SetCamera(c) => ContextView { camera_info: Some(c), ..self },
                RenderOp::DrawImage(x) => ContextView {
                    draw_images: self.draw_images.push(x),
                    ..self
                },
                RenderOp::DrawBillboard(x) => ContextView {
                    draw_billboards: self.draw_billboards.push(x),
                    ..self
                },
                RenderOp::ShowInternalTexture(x) => ContextView {
                    show_internal_textures: self.show_internal_textures.push(x),
                    ..self
                },
                _ => match op.chamber() {
                    Some(c) => {
                        let old = self.chambers[c as int].unwrap();
                        ContextView {
                            chambers: self.chambers.update(
                                c as int,
                                Some((old.0, old.1.with(op))),
                            ),
                            ..self
                        }
                    },
                    None => self,
                },
            }
        }
    }
}

/// The draw that an accepted operation asks for at once, if any. Lights,
/// shading requests and 2D draws only leave their mark in the state.
pub open spec fn immediate_action<P>(params: RendererParams, op: RenderOp<P>) -> Option<
    RenderAction<P>,
> {
    match op {
        RenderOp::StartFrame(_) => Some(RenderAction::BindDeferredPass1),
        RenderOp::SetCamera(c) => Some(RenderAction::BroadcastCamera(c)),
        RenderOp::DrawLine(l) => Some(
            RenderAction::DrawLine { unit: RenderUnit::geometry(Lighting::DefFixed), line: l.line },
        ),
        RenderOp::DrawWireFrame(w) => Some(
            RenderAction::DrawWireFrame {
                unit: RenderUnit::geometry(Lighting::DefFixed),
                frame: w.frame,
            },
        ),
        RenderOp::DrawGeneral(d) => Some(
            RenderAction::DrawGeneral {
                unit: RenderUnit::geometry(Lighting::DefFull),
                object: d.object.body,
                surface: d.surface,
            },
        ),
        RenderOp::DrawEmissiveStatic(d) => Some(
            RenderAction::DrawEmissiveStatic {
                unit: RenderUnit::geometry(Lighting::DefFull),
                object: d.object.body,
                surface: d.surface,
            },
        ),
        RenderOp::AddMajorLight(l) => if params.debug_lightvolume_outline {
            Some(
                RenderAction::OutlineLightVolume {
                    unit: RenderUnit::geometry(Lighting::DefFixed),
                    light: l.light,
                },
            )
        } else {
            None
        },
        RenderOp::VisualizeProbes(v) => Some(RenderAction::VisualizeProbes(v.chamber_index)),
        _ => None,
    }
}

/// What `process_op` answers in the given state: the error of a dropped
/// operation, or the immediate draw of an accepted one.
pub open spec fn verdict<P, V, S>(
    state: ContextView<P, V, S>,
    params: RendererParams,
    op: RenderOp<P>,
) -> Result<Option<RenderAction<P>>, OpErrorView> {
    match state.rejection(op) {
        Some(e) => Err(e),
        None => Ok(immediate_action(params, op)),
    }
}

/// The answer of `process_op` with the error taken by its view.
pub open spec fn answer_view<P>(r: Result<Option<RenderAction<P>>, OpError>) -> Result<
    Option<RenderAction<P>>,
    OpErrorView,
> {
    match r {
        Ok(a) => Ok(a),
        Err(e) => Err(e@),
    }
}

impl<P: Copy, V: Copy, S: Copy> RenderContext<P, V, S> {
    pub open spec fn view(&self) -> ContextView<P, V, S> {
        ContextView {
            camera_info: self.camera_info,
            chambers: Seq::new(
                self.chamber_contexts@.len(),
                |i: int|
                    match self.chamber_contexts@[i] {
                        Some(c) => Some((c.chamber, c.record())),
                        None => None,
                    },
            ),
            draw_images: self.draw_images@,
            draw_billboards: self.draw_billboards@,
            show_internal_textures: self.show_internal_textures@,
        }
    }

    /// Every chamber of the frame is well formed.
    pub open spec fn wf(&self) -> bool {
        forall|i: int|
            0 <= i < self.chamber_contexts@.len() && (
            #[trigger] self.chamber_contexts@[i]).is_some()
                ==> self.chamber_contexts@[i].unwrap().chamber.state.wf()
    }

    /// The context of the chamber with this index.
    pub fn get_chamber_ctx(&self, chamber_index: ChamberIndex) -> (r: Result<
        &ChamberContext<P, V, S>,
        OpError,
    >)
        ensures
            r.is_ok() == self@.present(chamber_index),
            r.is_ok() ==> Some(*r.unwrap()) == self.chamber_contexts@[chamber_index as int],
            r matches Err(e) ==> e@ == OpErrorView::InvalidChamberAccess(chamber_index),
    {
        if (chamber_index as usize) < self.chamber_contexts.len() {
            match &self.chamber_contexts[chamber_index as usize] {
                Some(c) => Ok(c),
                None => Err(OpError::InvalidChamberAccess(chamber_index)),
            }
        } else {
            Err(OpError::InvalidChamberAccess(chamber_index))
        }
    }

    /// Adds an accepted operation to the lists of its chamber.
    fn record_in_chamber(&mut self, chamber_index: ChamberIndex, op: RenderOp<P>)
        requires
            old(self)@.present(chamber_index),
            op.chamber() == Some(chamber_index),
        ensures
            final(self)@.chambers == old(self)@.chambers.update(
                chamber_index as int,
                Some(
                    (
                        old(self)@.chambers[chamber_index as int].unwrap().0,
                        old(self)@.chambers[chamber_index as int].unwrap().1.with(op),
                    ),
                ),
            ),
            final(self).params == old(self).params,
            final(self).camera_info == old(self).camera_info,
            final(self).draw_images == old(self).draw_images,
            final(self).draw_billboards == old(self).draw_billboards,
            final(self).show_internal_textures == old(self).show_internal_textures,
            final(self).chamber_contexts@.len() == old(self).chamber_contexts@.len(),
            old(self).wf() ==> final(self).wf(),
    {
        let i: usize = chamber_index as usize;
        match &mut self.chamber_contexts[i] {
            Some(ctx) => {
                match op {
                    RenderOp::DrawGeneral(d) => {
                        if d.object.shadow {
                            ctx.shadow_objects.push(ChamberShadowObject { body: d.object.body });
                        }
                    },
                    RenderOp::DrawEmissiveStatic(d) => {
                        if d.object.shadow {
                            ctx.shadow_objects.push(ChamberShadowObject { body: d.object.body });
                        }
                        ctx.emissive_static_objects.push(
                            ChamberEmissiveStaticObject { body: d.object.body, surface: d.surface },
                        );
                    },
                    RenderOp::AddMajorLight(l) => {
                        ctx.major_lights.push(l);
                    },
                    RenderOp::AddPointLight(l) => {
                        ctx.point_lights.push(l);
                    },
                    RenderOp::AddAmbientLight(l) => {
                        ctx.ambient_lights.push(l);
                    },
                    RenderOp::ShadeWithIv(s) => {
                        ctx.shade_with_iv = Some(s);
                    },
                    _ => {},
                }
            },
            None => {},
        }
        proof {
            let want = old(self)@.chambers.update(
                chamber_index as int,
                Some(
                    (
                        old(self)@.chambers[chamber_index as int].unwrap().0,
                        old(self)@.chambers[chamber_index as int].unwrap().1.with(op),
                    ),
                ),
            );
            assert(final(self)@.chambers.len() == want.len());
            assert forall|j: int| 0 <= j < want.len() implies final(self)@.chambers[j]
                =~~= want[j] by {
                if j != chamber_index as int {
                    assert(self.chamber_contexts@[j] == old(self).chamber_contexts@[j]);
                }
            }
            assert(final(self)@.chambers =~~= want);
        }
    }

    /// Closes the probe capture of a chamber of the frame and moves the
    /// chamber's cursor one step. `baked` holds the coefficients projected
    /// from the captured faces.
    ///
    /// The probe under the cursor is baked only with its last face, face
    /// 5: then its coefficients are replaced by `baked` and the atlas is
    /// rewritten; every other probe keeps its coefficients. With any other
    /// face under the cursor the probes and the atlas stay exactly as they
    /// were. Nothing else of the frame changes.
    pub fn update_probe(&mut self, chamber_index: ChamberIndex, baked: Option<Vec<(V, V, S)>>) -> (applied:
        bool)
        requires
            old(self).wf(),
            old(self)@.present(chamber_index),
        ensures
            final(self).wf(),
            final(self).params == old(self).params,
            final(self).camera_info == old(self).camera_info,
            final(self).draw_images == old(self).draw_images,
            final(self).draw_billboards == old(self).draw_billboards,
            final(self).show_internal_textures == old(self).show_internal_textures,
            final(self).chamber_contexts@.len() == old(self).chamber_contexts@.len(),
            forall|j: int|
                0 <= j < old(self).chamber_contexts@.len() && j != chamber_index
                    ==> final(self).chamber_contexts@[j] == old(self).chamber_contexts@[j],
            final(self).chamber_contexts@[chamber_index as int].is_some(),
            old(self).chamber_contexts@[chamber_index as int].unwrap().kept_but_state(
                final(self).chamber_contexts@[chamber_index as int].unwrap(),
            ),
            old(self).chamber_contexts@[chamber_index as int].unwrap().chamber.state.capture_completed(
                baked,
                final(self).chamber_contexts@[chamber_index as int].unwrap().chamber.state,
            ),
            applied == old(self).chamber_contexts@[chamber_index as int].unwrap().chamber.state.bakes(
                baked,
            ),
    {
        let i: usize = chamber_index as usize;
        assert(old(self).chamber_contexts@[i as int].is_some());
        let applied: bool = match &mut self.chamber_contexts[i] {
            Some(ctx) => ctx.chamber.state.complete_capture(baked),
            None => false,
        };
        proof {
            assert forall|j: int|
                0 <= j < self.chamber_contexts@.len() && (
                #[trigger] self.chamber_contexts@[j]).is_some() implies self.chamber_contexts@[j].unwrap().chamber.state.wf() by {
                if j != i as int {
                    assert(self.chamber_contexts@[j] == old(self).chamber_contexts@[j]);
                }
            }
        }
        applied
    }

    /// Takes one dispatchable operation: decides whether it is dropped,
    /// and if not, records it and names the draw that it asks for at once.
    ///
    /// An operation that names a chamber which takes no part in the frame
    /// is dropped with `InvalidChamberAccess`. A second request for
    /// irradiance shading of one chamber is dropped with `InvalidShade`:
    /// the first request stays. A dropped operation changes nothing.
    pub fn process_op(&mut self, op: RenderOp<P>) -> (r: Result<
        Option<RenderAction<P>>,
        OpError,
    >)
        requires
            op.dispatchable(),
        ensures
            answer_view(r) == verdict(old(self)@, old(self).params, op),
            final(self)@ == old(self)@.after(op),
            final(self).params == old(self).params,
            final(self).chamber_contexts@.len() == old(self).chamber_contexts@.len(),
            old(self).wf() ==> final(self).wf(),
    {
        match op {
            RenderOp::StartFrame(_) => Ok(Some(RenderAction::BindDeferredPass1)),
            RenderOp::SetCamera(c) => {
                self.camera_info = Some(c);
                Ok(Some(RenderAction::BroadcastCamera(c)))
            },
            RenderOp::DrawLine(l) => Ok(
                Some(
                    RenderAction::DrawLine {
                        unit: RenderUnit::for_geometry(Lighting::DefFixed),
                        line: l.line,
                    },
                ),
            ),
            RenderOp::DrawWireFrame(w) => Ok(
                Some(
                    RenderAction::DrawWireFrame {
                        unit: RenderUnit::for_geometry(Lighting::DefFixed),
                        frame: w.frame,
                    },
                ),
            ),
            RenderOp::DrawGeneral(d) => {
                let index: ChamberIndex = d.object.chamber_index;
                match self.get_chamber_ctx(index) {
                    Err(e) => {
                        return Err(e);
                    },
                    Ok(_) => {},
                }
                let action = RenderAction::DrawGeneral {
                    unit: RenderUnit::for_geometry(Lighting::DefFull),
                    object: d.object.body,
                    surface: d.surface,
                };
                self.record_in_chamber(index, RenderOp::DrawGeneral(d));
                Ok(Some(action))
            },
            RenderOp::DrawEmissiveStatic(d) => {
                let index: ChamberIndex = d.object.chamber_index;
                match self.get_chamber_ctx(index) {
                    Err(e) => {
                        return Err(e);
                    },
                    Ok(_) => {},
                }
                let action = RenderAction::DrawEmissiveStatic {
                    unit: RenderUnit::for_geometry(Lighting::DefFull),
                    object: d.object.body,
                    surface: d.surface,
                };
                self.record_in_chamber(index, RenderOp::DrawEmissiveStatic(d));
                Ok(Some(action))
            },
            RenderOp::AddMajorLight(l) => {
                let index: ChamberIndex = l.chamber_index;
                match self.get_chamber_ctx(index) {
                    Err(e) => {
                        return Err(e);
                    },
                    Ok(_) => {},
                }
                let action = if self.params.debug_lightvolume_outline {
                    Some(
                        RenderAction::OutlineLightVolume {
                            unit: RenderUnit::for_geometry(Lighting::DefFixed),
                            light: l.light,
                        },
                    )
                } else {
                    None
                };
                self.record_in_chamber(index, RenderOp::AddMajorLight(l));
                Ok(action)
            },
            RenderOp::AddPointLight(l) => {
                let index: ChamberIndex = l.chamber_index;
                match self.get_chamber_ctx(index) {
                    Err(e) => {
                        return Err(e);
                    },
                    Ok(_) => {},
                }
                self.record_in_chamber(index, RenderOp::AddPointLight(l));
                Ok(None)
            },
            RenderOp::AddAmbientLight(l) => {
                let index: ChamberIndex = l.chamber_index;
                match self.get_chamber_ctx(index) {
                    Err(e) => {
                        return Err(e);
                    },
                    Ok(_) => {},
                }
                self.record_in_chamber(index, RenderOp::AddAmbientLight(l));
                Ok(None)
            },
            RenderOp::ShadeWithIv(s) => {
                let index: ChamberIndex = s.chamber_index;
                let taken: bool = match self.get_chamber_ctx(index) {
                    Err(e) => {
                        return Err(e);
                    },
                    Ok(ctx) => ctx.shade_with_iv.is_some(),
                };
                if taken {
                    return Err(OpError::InvalidShade(shade_request(index)));
                }
                self.record_in_chamber(index, RenderOp::ShadeWithIv(s));
                Ok(None)
            },
            RenderOp::VisualizeProbes(v) => {
                let index: ChamberIndex = v.chamber_index;
                match self.get_chamber_ctx(index) {
                    Err(e) => {
                        return Err(e);
                    },
                    Ok(_) => {},
                }
                proof {
                    assert(self@.chambers.update(
                        index as int,
                        Some(
                            (
                                self@.chambers[index as int].unwrap().0,
                                self@.chambers[index as int].unwrap().1.with(op),
                            ),
                        ),
                    ) =~= self@.chambers);
                }
                Ok(Some(RenderAction::VisualizeProbes(index)))
            },
            RenderOp::DrawImage(x) => {
                self.draw_images.push(x);
                Ok(None)
            },
            RenderOp::DrawBillboard(x) => {
                self.draw_billboards.push(x);
                Ok(None)
            },
            RenderOp::ShowInternalTexture(x) => {
                self.show_internal_textures.push(x);
                Ok(None)
            },
            _ => Ok(None),
        }
    }
}

/// Where a renderer stands in its frame.
#[derive(Debug, Clone, Copy, PartialEq, Eq, Structural)]
pub enum RenderPhase {
    /// Built, nothing received yet.
    Idle,
    /// Taking operations from the queue.
    Draining,
    /// The end marker has come: probes are captured and chambers shaded.
    Shading,
    /// The frame is composed and handed back. `finish` uses the renderer
    /// up, so no renderer is ever seen in this phase.
    Finalizing,
}

/// The renderer of one frame. It is used up by `finish`; the next frame
/// needs a new one.
pub struct Renderer<P, V, S> {
    pub phase: RenderPhase,
    pub ctx: RenderContext<P, V, S>,
    pub logs: Vec<FrameLog>,
}

/// What a run of dispatches has made of a frame: its state, the draws
/// asked for so far and the log written so far.
pub struct Drain<P, V, S> {
    pub state: ContextView<P, V, S>,
    pub actions: Seq<RenderAction<P>>,
    pub logs: Seq<FrameLogView>,
}

impl<P, V, S> Drain<P, V, S> {
    /// One dispatch: a dropped operation leaves a log line with the time
    /// `now` and nothing else; an accepted one changes the state and may
    /// ask for a draw.
    pub open spec fn step(self, params: RendererParams, op: RenderOp<P>, now: i64) -> Self {
        match verdict(self.state, params, op) {
            Err(e) => Drain {
                logs: self.logs.push(FrameLogView { timestamp: now, log: e.message() }),
                ..self
            },
            Ok(a) => Drain {
                state: self.state.after(op),
                actions: match a {
                    Some(x) => self.actions.push(x),
                    None => self.actions,
                },
                ..self
            },
        }
    }

    /// The dispatches of a worklist, which is a stack: the last item
    /// first.
    pub open spec fn run(self, params: RendererParams, items: Seq<RenderOp<P>>, now: i64) -> Self
        decreases items.len(),
    {
        if items.len() == 0 {
            self
        } else {
            self.step(params, items.last(), now).run(params, items.drop_last(), now)
        }
    }
}

/// What the shading of one chamber works with, in the order in which the
/// frame brought it.
pub struct ShadePlan<P> {
    pub chamber_index: ChamberIndex,
    /// The ambient lights that shine from every direction.
    pub omni_lights: Vec<AddAmbientLight<P>>,
    /// The other ambient lights.
    pub ambient_lights: Vec<AddAmbientLight<P>>,
    pub major_lights: Vec<AddMajorLight<P>>,
    pub point_lights: Vec<AddPointLight<P>>,
    pub shadow_objects: Vec<ChamberShadowObject<P>>,
    pub emissive_static_objects: Vec<ChamberEmissiveStaticObject<P>>,
    /// The irradiance shading to apply, if the frame asked for it and
    /// irradiance volumes are switched on.
    pub irradiance: Option<ShadeWithIv<P>>,
}

/// The ambient lights of a list whose `omni` flag is `omni`, in order.
pub open spec fn ambient_of_kind<P>(lights: Seq<AddAmbientLight<P>>, omni: bool) -> Seq<
    AddAmbientLight<P>,
>
    decreases lights.len(),
{
    if lights.len() == 0 {
        Seq::empty()
    } else if lights.last().omni == omni {
        ambient_of_kind(lights.drop_last(), omni).push(lights.last())
    } else {
        ambient_of_kind(lights.drop_last(), omni)
    }
}

impl<P: Copy> ShadePlan<P> {
    /// The passes that shade the chamber, in order: the lighting pass is
    /// bound; then come the omni lights, the other ambient lights, the
    /// major lights (for each its shadow map, the lighting pass again, and
    /// the light itself), the point lights, and last the irradiance
    /// volume.
    pub open spec fn spec_passes(&self) -> Seq<ShadePass<P>> {
        seq![ShadePass::BindDeferredPass2] + Seq::new(
            self.omni_lights@.len(),
            |i: int| ShadePass::OmniLight(self.omni_lights@[i].color),
        ) + Seq::new(
            self.ambient_lights@.len(),
            |i: int| ShadePass::AmbientLight(self.ambient_lights@[i].color),
        ) + Seq::new(
            3 * self.major_lights@.len(),
            |i: int|
                if i % 3 == 0 {
                    ShadePass::ShadowMap(self.major_lights@[i / 3].light)
                } else if i % 3 == 1 {
                    ShadePass::BindDeferredPass2
                } else {
                    ShadePass::MajorLight(self.major_lights@[i / 3].light)
                },
        ) + Seq::new(
            self.point_lights@.len(),
            |i: int| ShadePass::PointLight(self.point_lights@[i].light),
        ) + match self.irradiance {
            Some(s) => seq![ShadePass::Irradiance(s.weight)],
            None => Seq::empty(),
        }
    }

    /// The passes that shade the chamber, in order.
    pub fn passes(&self) -> (r: Vec<ShadePass<P>>)
        ensures
            r@ == self.spec_passes(),
    {
        let mut r: Vec<ShadePass<P>> = Vec::new();
        r.push(ShadePass::BindDeferredPass2);
        let ghost head = r@;
        let mut i: usize = 0;
        while i < self.omni_lights.len()
            invariant
                i <= self.omni_lights@.len(),
                r@ == head + Seq::new(
                    i as nat,
                    |k: int| ShadePass::OmniLight(self.omni_lights@[k].color),
                ),
            decreases self.omni_lights@.len() - i,
        {
            r.push(ShadePass::OmniLight(self.omni_lights[i].color));
            i = i + 1;
            assert(r@ =~= head + Seq::new(
                i as nat,
                |k: int| ShadePass::OmniLight(self.omni_lights@[k].color),
            ));
        }
        let ghost head = r@;
        let mut i: usize = 0;
        while i < self.ambient_lights.len()
            invariant
                i <= self.ambient_lights@.len(),
                r@ == head + Seq::new(
                    i as nat,
                    |k: int| ShadePass::AmbientLight(self.ambient_lights@[k].color),
                ),
            decreases self.ambient_lights@.len() - i,
        {
            r.push(ShadePass::AmbientLight(self.ambient_lights[i].color));
            i = i + 1;
            assert(r@ =~= head + Seq::new(
                i as nat,
                |k: int| ShadePass::AmbientLight(self.ambient_lights@[k].color),
            ));
        }
        let ghost head = r@;
        let mut i: usize = 0;
        while i < self.major_lights.len()
            invariant
                i <= self.major_lights@.len(),
                r@ == head + Seq::new(
                    (3 * i) as nat,
                    |k: int|
                        if k % 3 == 0 {
                            ShadePass::ShadowMap(self.major_lights@[k / 3].light)
                        } else if k % 3 == 1 {
                            ShadePass::BindDeferredPass2
                        } else {
                            ShadePass::MajorLight(self.major_lights@[k / 3].light)
                        },
                ),
            decreases self.major_lights@.len() - i,
        {
            r.push(ShadePass::ShadowMap(self.major_lights[i].light));
            r.push(ShadePass::BindDeferredPass2);
            r.push(ShadePass::MajorLight(self.major_lights[i].light));
            i = i + 1;
            assert(r@ =~= head + Seq::new(
                (3 * i) as nat,
                |k: int|
                    if k % 3 == 0 {
                        ShadePass::ShadowMap(self.major_lights@[k / 3].light)
                    } else if k % 3 == 1 {
                        ShadePass::BindDeferredPass2
                    } else {
                        ShadePass::MajorLight(self.major_lights@[k / 3].light)
                    },
            ));
        }
        let ghost head = r@;
        let mut i: usize = 0;
        while i < self.point_lights.len()
            invariant
                i <= self.point_lights@.len(),
                r@ == head + Seq::new(
                    i as nat,
                    |k: int| ShadePass::PointLight(self.point_lights@[k].light),
                ),
            decreases self.point_lights@.len() - i,
        {
            r.push(ShadePass::PointLight(self.point_lights[i].light));
            i = i + 1;
            assert(r@ =~= head + Seq::new(
                i as nat,
                |k: int| ShadePass::PointLight(self.point_lights@[k].light),
            ));
        }
        let ghost head = r@;
        match &self.irradiance {
            Some(s) => {
                r.push(ShadePass::Irradiance(s.weight));
                assert(r@ =~= head + seq![ShadePass::Irradiance(s.weight)]);
            },
            None => {
                assert(r@ =~= head + Seq::<ShadePass<P>>::empty());
            },
        }
        r
    }

    /// The plan holds exactly what the frame collected for the chamber.
    pub open spec fn matches(
        &self,
        index: ChamberIndex,
        record: ChamberRecord<P>,
        params: RendererParams,
    ) -> bool {
        &&& self.chamber_index == index
        &&& self.omni_lights@ == ambient_of_kind(record.ambient_lights, true)
        &&& self.ambient_lights@ == ambient_of_kind(record.ambient_lights, false)
        &&& self.major_lights@ == record.major_lights
        &&& self.point_lights@ == record.point_lights
        &&& self.shadow_objects@ == record.shadow_objects
        &&& self.emissive_static_objects@ == record.emissive_static_objects
        &&& self.irradiance == if params.enable_irradiance_volume {
            record.shade_with_iv
        } else {
            None
        }
    }
}

/// One pass of the shading of a chamber.
#[derive(Debug)]
pub enum ShadePass<P> {
    /// Bind the lighting pass, keeping what it holds.
    BindDeferredPass2,
    /// Light the chamber's volume with an ambient light that shines from
    /// every direction.
    OmniLight(P),
    /// Light the chamber's volume with an ambient light.
    AmbientLight(P),
    /// Draw the chamber's shadow casters into the shadow map of a major
    /// light.
    ShadowMap(P),
    /// Light the volume of a major light through its shadow map.
    MajorLight(P),
    /// Light the volume of a point light.
    PointLight(P),
    /// Light the chamber from its irradiance volume, scaled by a weight.
    Irradiance(P),
}

/// An internal texture that can be shown for debugging.
#[derive(Debug, Clone, Copy, PartialEq, Eq, Structural)]
pub enum InternalTexture {
    Normal,
    IrradianceIllumination,
}

/// One draw of the 2D overlay.
#[derive(Debug)]
pub enum OverlayDraw<P> {
    Image(P),
    InternalTexture { texture: InternalTexture, placement: P },
    Billboard(P),
}

/// The internal texture of a name, if there is one of that name.
pub open spec fn texture_named(name: Seq<char>) -> Option<InternalTexture> {
    if name == "normal"@ {
        Some(InternalTexture::Normal)
    } else if name == "iv_illuminatiion"@ {
        Some(InternalTexture::IrradianceIllumination)
    } else {
        None
    }
}

/// The draws of the requests that name an internal texture, in order.
pub open spec fn shown_textures<P>(requests: Seq<ShowInternalTexture<P>>) -> Seq<OverlayDraw<P>>
    decreases requests.len(),
{
    if requests.len() == 0 {
        Seq::empty()
    } else {
        let rest = shown_textures(requests.drop_last());
        match texture_named(requests.last().name@) {
            Some(texture) => rest.push(
                OverlayDraw::InternalTexture { texture, placement: requests.last().placement },
            ),
            None => rest,
        }
    }
}

/// The log lines, written at `now`, of the requests that name no internal
/// texture, in order.
pub open spec fn unknown_textures<P>(requests: Seq<ShowInternalTexture<P>>, now: i64) -> Seq<
    FrameLogView,
>
    decreases requests.len(),
{
    if requests.len() == 0 {
        Seq::empty()
    } else {
        let rest = unknown_textures(requests.drop_last(), now);
        match texture_named(requests.last().name@) {
            Some(_) => rest,
            None => rest.push(
                FrameLogView {
                    timestamp: now,
                    log: crate::log::unknown_texture_text(requests.last().name@),
                },
            ),
        }
    }
}

/// The 2D overlay of a frame: the images, then the internal textures, then
/// the billboards, each group in the order in which the frame brought it.
pub open spec fn overlay_of<P>(
    images: Seq<DrawImage<P>>,
    textures: Seq<ShowInternalTexture<P>>,
    billboards: Seq<DrawBillboard<P>>,
) -> Seq<OverlayDraw<P>> {
    Seq::new(images.len(), |i: int| OverlayDraw::Image(images[i].image)) + shown_textures(
        textures,
    ) + Seq::new(billboards.len(), |i: int| OverlayDraw::Billboard(billboards[i].billboard))
}

/// What a finished frame hands back.
pub struct RenderEnd<P, V, S> {
    /// The log of the frame in the order of the timestamps.
    pub logs: Vec<FrameLog>,
    /// The chambers, each in its slot again.
    pub chambers: Vec<Option<Chamber<V, S>>>,
    /// For each chamber that took part, what to shade it with.
    pub shading: Vec<Option<ShadePlan<P>>>,
    pub camera_info: Option<P>,
    /// The 2D draws that follow the shading, in order.
    pub overlay: Vec<OverlayDraw<P>>,
    /// When the frame was finished, in microseconds since the Unix epoch.
    pub finished_at: i64,
}

/// The ambient lights of a list whose `omni` flag is `omni`, in order.
fn select_ambient<P: Copy>(lights: &Vec<AddAmbientLight<P>>, omni: bool) -> (r: Vec<
    AddAmbientLight<P>,
>)
    ensures
        r@ == ambient_of_kind(lights@, omni),
{
    let mut r: Vec<AddAmbientLight<P>> = Vec::new();
    let mut i: usize = 0;
    while i < lights.len()
        invariant
            i <= lights@.len(),
            r@ == ambient_of_kind(lights@.take(i as int), omni),
        decreases lights@.len() - i,
    {
        proof {
            assert(lights@.take(i + 1).drop_last() =~= lights@.take(i as int));
        }
        if lights[i].omni == omni {
            r.push(
                AddAmbientLight {
                    color: lights[i].color,
                    omni: lights[i].omni,
                    chamber_index: lights[i].chamber_index,
                },
            );
        }
        i = i + 1;
    }
    proof {
        assert(lights@.take(i as int) =~= lights@);
    }
    r
}

/// The baked coefficients that the caller brought for chamber `i`.
pub open spec fn baked_for<V, S>(baked: Seq<Option<Vec<(V, V, S)>>>, i: int) -> Option<
    Vec<(V, V, S)>,
> {
    if 0 <= i < baked.len() {
        baked[i]
    } else {
        None
    }
}

/// A chamber as it leaves a frame: with irradiance volumes switched on its
/// capture is closed and its cursor moved one step, otherwise it is
/// untouched.
pub open spec fn chamber_closed<V: Copy, S: Copy>(
    before: Chamber<V, S>,
    gi: bool,
    baked: Option<Vec<(V, V, S)>>,
    after: Chamber<V, S>,
) -> bool {
    &&& after.config == before.config
    &&& if gi {
        before.state.capture_completed(baked, after.state)
    } else {
        after.state == before.state
    }
}

/// Folds the context of a chamber back into the chamber and draws up its
/// shading plan.
fn close_chamber<P: Copy, V: Copy, S: Copy>(
    ctx: ChamberContext<P, V, S>,
    index: ChamberIndex,
    params: &RendererParams,
) -> (r: (Chamber<V, S>, ShadePlan<P>))
    ensures
        r.0 == ctx.chamber,
        r.1.matches(index, ctx.record(), *params),
{
    let omni_lights = select_ambient(&ctx.ambient_lights, true);
    let ambient_lights = select_ambient(&ctx.ambient_lights, false);
    let ChamberContext {
        chamber,
        major_lights,
        ambient_lights: _,
        point_lights,
        shadow_objects,
        emissive_static_objects,
        billboards: _,
        shade_with_iv,
    } = ctx;
    let irradiance = if params.enable_irradiance_volume {
        shade_with_iv
    } else {
        None
    };
    (
        chamber,
        ShadePlan {
            chamber_index: index,
            omni_lights,
            ambient_lights,
            major_lights,
            point_lights,
            shadow_objects,
            emissive_static_objects,
            irradiance,
        },
    )
}

impl<P: Copy, V: Copy, S: Copy> Renderer<P, V, S> {
    /// The chambers are well formed, and there are no more of them than a
    /// chamber index can name.
    pub open spec fn wf(&self) -> bool {
        self.ctx.wf() && self.ctx.chamber_contexts@.len() <= u32::MAX
    }

    /// What the renderer has made of its frame so far.
    pub open spec fn drain(&self) -> Drain<P, V, S> {
        Drain { state: self.ctx@, actions: Seq::empty(), logs: crate::log::log_views(self.logs@) }
    }

    /// Takes over the chambers for one frame. Every chamber that exists
    /// gets a fresh context.
    pub fn new(params: RendererParams, chambers: Vec<Option<Chamber<V, S>>>) -> (r: Self)
        requires
            chambers@.len() <= u32::MAX,
            forall|i: int|
                0 <= i < chambers@.len() && (#[trigger] chambers@[i]).is_some()
                    ==> chambers@[i].unwrap().state.wf(),
        ensures
            r.wf(),
            r.phase == RenderPhase::Idle,
            r.ctx.params == params,
            r.logs@.len() == 0,
            r.ctx.chamber_contexts@.len() == chambers@.len(),
            forall|i: int|
                0 <= i < chambers@.len() ==> match (#[trigger] chambers@[i]) {
                    Some(c) => r.ctx.chamber_contexts@[i].is_some()
                        && r.ctx.chamber_contexts@[i].unwrap().chamber == c,
                    None => r.ctx.chamber_contexts@[i].is_none(),
                },
            r.ctx@ == (ContextView::<P, V, S> {
                camera_info: None,
                chambers: Seq::new(
                    chambers@.len(),
                    |i: int|
                        match chambers@[i] {
                            Some(c) => Some((c, ChamberRecord::<P>::empty())),
                            None => None,
                        },
                ),
                draw_images: Seq::empty(),
                draw_billboards: Seq::empty(),
                show_internal_textures: Seq::empty(),
            }),
    {
        let mut chambers = chambers;
        let ghost given = chambers@;
        let mut contexts: Vec<Option<ChamberContext<P, V, S>>> = Vec::new();
        let mut i: usize = 0;
        while i < chambers.len()
            invariant
                i <= chambers@.len(),
                chambers@.len() == given.len(),
                contexts@.len() == i,
                forall|j: int| i <= j < given.len() ==> chambers@[j] == given[j],
                forall|j: int|
                    0 <= j < i ==> match given[j] {
                        Some(c) => (#[trigger] contexts@[j]).is_some() && contexts@[j].unwrap().chamber
                            == c && contexts@[j].unwrap().record() == ChamberRecord::<P>::empty(),
                        None => contexts@[j].is_none(),
                    },
            decreases chambers@.len() - i,
        {
            let slot: Option<Chamber<V, S>> = chambers[i].take();
            let context = match slot {
                Some(c) => Some(ChamberContext::new(c)),
                None => None,
            };
            contexts.push(context);
            i = i + 1;
        }
        let r = Renderer {
            phase: RenderPhase::Idle,
            ctx: RenderContext {
                params,
                camera_info: None,
                chamber_contexts: contexts,
                draw_images: Vec::new(),
                draw_billboards: Vec::new(),
                show_internal_textures: Vec::new(),
            },
            logs: Vec::new(),
        };
        proof {
            assert(r.ctx@.chambers =~= Seq::new(
                given.len(),
                |i: int|
                    match given[i] {
                        Some(c) => Some((c, ChamberRecord::<P>::empty())),
                        None => None,
                    },
            ));
        }
        r
    }

    pub fn phase(&self) -> (r: RenderPhase)
        ensures
            r == self.phase,
    {
        self.phase
    }

    /// Takes one item of the queue at the time `now`. A composite is
    /// unpacked into a worklist and its members are dispatched from the
    /// top of that stack, the last member first; any other operation is
    /// dispatched by itself. Each dropped operation leaves one log line.
    /// Returns the draws to issue, in order.
    pub fn receive(&mut self, op: RenderOp<P>, now: i64) -> (actions: Vec<RenderAction<P>>)
        requires
            op.deliverable(),
            old(self).phase == RenderPhase::Idle || old(self).phase == RenderPhase::Draining,
        ensures
            final(self).phase == RenderPhase::Draining,
            final(self).ctx.params == old(self).ctx.params,
            old(self).wf() ==> final(self).wf(),
            (Drain {
                state: final(self).ctx@,
                actions: actions@,
                logs: crate::log::log_views(final(self).logs@),
            }) == old(self).drain().run(old(self).ctx.params, op.flattened(), now),
    {
        let mut op_list: Vec<RenderOp<P>> = match op {
            RenderOp::Multiple(v) => v,
            other => {
                let mut single: Vec<RenderOp<P>> = Vec::new();
                single.push(other);
                assert(single@ =~= seq![other]);
                single
            },
        };
        let mut actions: Vec<RenderAction<P>> = Vec::new();
        let ghost params = self.ctx.params;
        let ghost goal = old(self).drain().run(params, op.flattened(), now);
        self.phase = RenderPhase::Draining;
        while op_list.len() > 0
            invariant
                self.phase == RenderPhase::Draining,
                self.ctx.params == params,
                old(self).wf() ==> self.wf(),
                forall|i: int| 0 <= i < op_list@.len() ==> (#[trigger] op_list@[i]).dispatchable(),
                (Drain {
                    state: self.ctx@,
                    actions: actions@,
                    logs: crate::log::log_views(self.logs@),
                }).run(params, op_list@, now) == goal,
            decreases op_list@.len(),
        {
            let ghost before = Drain {
                state: self.ctx@,
                actions: actions@,
                logs: crate::log::log_views(self.logs@),
            };
            let ghost items = op_list@;
            let ghost lines = self.logs@;
            let next = op_list.pop().unwrap();
            assert(op_list@ == items.drop_last());
            assert(next == items.last());
            match self.ctx.process_op(next) {
                Ok(Some(a)) => {
                    actions.push(a);
                },
                Ok(None) => {},
                Err(e) => {
                    self.logs.push(FrameLog::from_err(now, &e));
                    assert(crate::log::log_views(self.logs@) =~= crate::log::log_views(lines).push(
                        FrameLogView { timestamp: now, log: e@.message() },
                    ));
                },
            }
            assert((Drain {
                state: self.ctx@,
                actions: actions@,
                logs: crate::log::log_views(self.logs@),
            }) == before.step(params, next, now));
        }
        actions
    }

    /// Whether the frame can be finished: the overlay and the shading
    /// need the camera.
    pub open spec fn can_finish(&self) -> bool {
        self.ctx.camera_info.is_some()
    }

    /// Whether the frame can be finished.
    pub fn is_ready_to_finish(&self) -> (r: bool)
        ensures
            r == self.can_finish(),
    {
        self.ctx.camera_info.is_some()
    }

    /// The end marker has come. Names, chamber by chamber, the probe
    /// capture that this frame owes: one for every chamber that takes part
    /// if irradiance volumes are switched on, none otherwise. The lighting
    /// pass is to be bound and cleared before the captures are carried out.
    pub fn captures(&mut self) -> (r: Vec<Option<ProbeCapture>>)
        requires
            old(self).phase == RenderPhase::Idle || old(self).phase == RenderPhase::Draining,
        ensures
            final(self).phase == RenderPhase::Shading,
            final(self).ctx == old(self).ctx,
            final(self).logs == old(self).logs,
            r@.len() == old(self).ctx.chamber_contexts@.len(),
            forall|i: int|
                0 <= i < r@.len() ==> #[trigger] r@[i] == match old(self).ctx.chamber_contexts@[i] {
                    Some(c) => if old(self).ctx.params.enable_irradiance_volume {
                        Some(
                            ProbeCapture {
                                index: c.chamber.state.current_probe.0,
                                face: c.chamber.state.current_probe.1,
                                bake: c.chamber.state.current_probe.1 == 5,
                            },
                        )
                    } else {
                        None
                    },
                    None => None,
                },
    {
        self.phase = RenderPhase::Shading;
        let mut r: Vec<Option<ProbeCapture>> = Vec::new();
        let mut i: usize = 0;
        while i < self.ctx.chamber_contexts.len()
            invariant
                self.phase == RenderPhase::Shading,
                self.ctx == old(self).ctx,
                self.logs == old(self).logs,
                i <= self.ctx.chamber_contexts@.len(),
                r@.len() == i,
                forall|j: int|
                    0 <= j < i ==> #[trigger] r@[j] == match self.ctx.chamber_contexts@[j] {
                        Some(c) => if self.ctx.params.enable_irradiance_volume {
                            Some(
                                ProbeCapture {
                                    index: c.chamber.state.current_probe.0,
                                    face: c.chamber.state.current_probe.1,
                                    bake: c.chamber.state.current_probe.1 == 5,
                                },
                            )
                        } else {
                            None
                        },
                        None => None,
                    },
            decreases self.ctx.chamber_contexts@.len() - i,
        {
            let request = match &self.ctx.chamber_contexts[i] {
                Some(c) => if self.ctx.params.enable_irradiance_volume {
                    Some(c.chamber.state.capture_request())
                } else {
                    None
                },
                None => None,
            };
            r.push(request);
            i = i + 1;
        }
        r
    }

    /// What `finish` makes of the frame.
    pub open spec fn ended(
        &self,
        baked: Seq<Option<Vec<(V, V, S)>>>,
        now: i64,
        r: RenderEnd<P, V, S>,
    ) -> bool {
        &&& r.finished_at == now
        &&& crate::log::chronological(r.logs@)
        &&& crate::log::log_views(r.logs@) == crate::log::in_order(
            crate::log::log_views(self.logs@) + unknown_textures(
                self.ctx.show_internal_textures@,
                now,
            ),
        )
        &&& r.camera_info == self.ctx.camera_info
        &&& r.overlay@ == overlay_of(
            self.ctx.draw_images@,
            self.ctx.show_internal_textures@,
            self.ctx.draw_billboards@,
        )
        &&& r.chambers@.len() == self.ctx.chamber_contexts@.len()
        &&& r.shading@.len() == self.ctx.chamber_contexts@.len()
        &&& forall|i: int|
            0 <= i < self.ctx.chamber_contexts@.len() ==> match (
            #[trigger] self.ctx.chamber_contexts@[i]) {
                Some(c) => {
                    &&& r.chambers@[i].is_some()
                    &&& chamber_closed(
                        c.chamber,
                        self.ctx.params.enable_irradiance_volume,
                        baked_for(baked, i),
                        r.chambers@[i].unwrap(),
                    )
                    &&& r.chambers@[i].unwrap().state.wf()
                    &&& r.shading@[i].is_some()
                    &&& r.shading@[i].unwrap().matches(
                        i as ChamberIndex,
                        c.record(),
                        self.ctx.params,
                    )
                },
                None => r.chambers@[i].is_none() && r.shading@[i].is_none(),
            }
    }

    /// Ends the frame at the time `now`. `baked[i]` holds the coefficients
    /// projected from the capture of chamber `i`, where that capture
    /// completed a probe.
    ///
    /// Chamber by chamber in ascending order, with irradiance volumes
    /// switched on, the capture is closed and the cursor moved exactly one
    /// step; every chamber that took part gets its shading plan; every
    /// chamber returns to its slot. The overlay is drawn up; a request to
    /// show an internal texture that does not exist leaves a log line
    /// instead of a draw. The log comes back in the order of its
    /// timestamps.
    pub fn finish(self, baked: Vec<Option<Vec<(V, V, S)>>>, now: i64) -> (r: RenderEnd<P, V, S>)
        requires
            self.wf(),
            self.can_finish(),
            self.phase == RenderPhase::Shading,
        ensures
            self.ended(baked@, now, r),
    {
        let mut this = self;
        let mut baked = baked;
        let ghost given = this.ctx.chamber_contexts@;
        let ghost brought = baked@;
        let count: usize = this.ctx.chamber_contexts.len();
        let gi: bool = this.ctx.params.enable_irradiance_volume;
        let mut i: usize = 0;
        while i < count
            invariant
                i <= count,
                count == given.len(),
                given == self.ctx.chamber_contexts@,
                gi == self.ctx.params.enable_irradiance_volume,
                this.wf(),
                this.logs == self.logs,
                this.ctx.params == self.ctx.params,
                this.ctx.camera_info == self.ctx.camera_info,
                this.ctx.draw_images == self.ctx.draw_images,
                this.ctx.draw_billboards == self.ctx.draw_billboards,
                this.ctx.show_internal_textures == self.ctx.show_internal_textures,
                this.ctx.chamber_contexts@.len() == count,
                baked@.len() == brought.len(),
                forall|j: int| i <= j < brought.len() ==> baked@[j] == brought[j],
                forall|j: int| i <= j < count ==> this.ctx.chamber_contexts@[j] == given[j],
                forall|j: int|
                    0 <= j < i ==> match (#[trigger] given[j]) {
                        Some(c) => {
                            &&& this.ctx.chamber_contexts@[j].is_some()
                            &&& c.kept_but_state(this.ctx.chamber_contexts@[j].unwrap())
                            &&& chamber_closed(
                                c.chamber,
                                gi,
                                baked_for(brought, j),
                                this.ctx.chamber_contexts@[j].unwrap().chamber,
                            )
                        },
                        None => this.ctx.chamber_contexts@[j].is_none(),
                    },
            decreases count - i,
        {
            let ghost before = this.ctx.chamber_contexts@;
            let coefficients: Option<Vec<(V, V, S)>> = if i < baked.len() {
                baked[i].take()
            } else {
                None
            };
            assert(coefficients == baked_for(brought, i as int));
            assert(before[i as int] == given[i as int]);
            if gi && this.ctx.chamber_contexts[i].is_some() {
                let _ = this.ctx.update_probe(i as ChamberIndex, coefficients);
            }
            proof {
                assert forall|j: int| 0 <= j < i + 1 implies match (#[trigger] given[j]) {
                    Some(c) => {
                        &&& this.ctx.chamber_contexts@[j].is_some()
                        &&& c.kept_but_state(this.ctx.chamber_contexts@[j].unwrap())
                        &&& chamber_closed(
                            c.chamber,
                            gi,
                            baked_for(brought, j),
                            this.ctx.chamber_contexts@[j].unwrap().chamber,
                        )
                    },
                    None => this.ctx.chamber_contexts@[j].is_none(),
                } by {
                    if j < i {
                        assert(this.ctx.chamber_contexts@[j] == before[j]);
                    }
                }
            }
            i = i + 1;
        }
        let Renderer { phase: _, ctx, logs } = this;
        let RenderContext {
            params,
            camera_info,
            chamber_contexts,
            draw_images,
            draw_billboards,
            show_internal_textures,
        } = ctx;
        let mut contexts = chamber_contexts;
        let ghost closed = contexts@;
        let mut chambers: Vec<Option<Chamber<V, S>>> = Vec::new();
        let mut shading: Vec<Option<ShadePlan<P>>> = Vec::new();
        let mut i: usize = 0;
        while i < contexts.len()
            invariant
                i <= contexts@.len(),
                contexts@.len() == closed.len(),
                closed.len() <= u32::MAX,
                chambers@.len() == i,
                shading@.len() == i,
                forall|j: int| i <= j < closed.len() ==> contexts@[j] == closed[j],
                forall|j: int|
                    0 <= j < i ==> match (#[trigger] closed[j]) {
                        Some(c) => {
                            &&& chambers@[j] == Some(c.chamber)
                            &&& shading@[j].is_some()
                            &&& shading@[j].unwrap().matches(j as ChamberIndex, c.record(), params)
                        },
                        None => chambers@[j].is_none() && shading@[j].is_none(),
                    },
            decreases contexts@.len() - i,
        {
            let slot: Option<ChamberContext<P, V, S>> = contexts[i].take();
            assert(slot == closed[i as int]);
            match slot {
                Some(c) => {
                    let folded = close_chamber(c, i as ChamberIndex, &params);
                    chambers.push(Some(folded.0));
                    shading.push(Some(folded.1));
                },
                None => {
                    chambers.push(None);
                    shading.push(None);
                },
            }
            i = i + 1;
        }
        proof {
            assert forall|j: int| 0 <= j < given.len() implies match (#[trigger] given[j]) {
                Some(c) => {
                    &&& chambers@[j].is_some()
                    &&& chamber_closed(
                        c.chamber,
                        params.enable_irradiance_volume,
                        baked_for(brought, j),
                        chambers@[j].unwrap(),
                    )
                    &&& chambers@[j].unwrap().state.wf()
                    &&& shading@[j].is_some()
                    &&& shading@[j].unwrap().matches(j as ChamberIndex, c.record(), params)
                },
                None => chambers@[j].is_none() && shading@[j].is_none(),
            } by {
                let _ = closed[j];
                if given[j].is_some() {
                    assert(closed[j].is_some());
                    assert(closed[j].unwrap().record() == given[j].unwrap().record());
                    assert(closed[j].unwrap().chamber.state.wf());
                }
            }
        }
        let mut logs = logs;
        let ghost lines = logs@;
        let mut overlay: Vec<OverlayDraw<P>> = Vec::new();
        let mut k: usize = 0;
        while k < draw_images.len()
            invariant
                k <= draw_images@.len(),
                overlay@ == Seq::new(k as nat, |i: int| OverlayDraw::Image(draw_images@[i].image)),
            decreases draw_images@.len() - k,
        {
            overlay.push(OverlayDraw::Image(draw_images[k].image));
            k = k + 1;
            assert(overlay@ =~= Seq::new(
                k as nat,
                |i: int| OverlayDraw::Image(draw_images@[i].image),
            ));
        }
        let ghost first = overlay@;
        let mut k: usize = 0;
        while k < show_internal_textures.len()
            invariant
                k <= show_internal_textures@.len(),
                overlay@ == first + shown_textures(show_internal_textures@.take(k as int)),
                crate::log::log_views(logs@) == crate::log::log_views(lines) + unknown_textures(
                    show_internal_textures@.take(k as int),
                    now,
                ),
            decreases show_internal_textures@.len() - k,
        {
            let ghost shown = overlay@;
            let ghost written = logs@;
            proof {
                assert(show_internal_textures@.take(k + 1).drop_last()
                    =~= show_internal_textures@.take(k as int));
            }
            let request = &show_internal_textures[k];
            match internal_texture(&request.name) {
                Some(texture) => {
                    overlay.push(OverlayDraw::InternalTexture { texture, placement: request.placement });
                    assert(overlay@ =~= first + shown_textures(
                        show_internal_textures@.take(k + 1),
                    ));
                },
                None => {
                    logs.push(crate::log::unknown_texture_line(now, &request.name));
                    assert(crate::log::log_views(logs@) =~= crate::log::log_views(written).push(
                        logs@.last()@,
                    ));
                    assert(crate::log::log_views(logs@) =~= crate::log::log_views(lines)
                        + unknown_textures(show_internal_textures@.take(k + 1), now));
                },
            }
            k = k + 1;
        }
        proof {
            assert(show_internal_textures@.take(k as int) =~= show_internal_textures@);
        }
        let ghost second = overlay@;
        let mut k: usize = 0;
        while k < draw_billboards.len()
            invariant
                k <= draw_billboards@.len(),
                overlay@ == second + Seq::new(
                    k as nat,
                    |i: int| OverlayDraw::Billboard(draw_billboards@[i].billboard),
                ),
            decreases draw_billboards@.len() - k,
        {
            overlay.push(OverlayDraw::Billboard(draw_billboards[k].billboard));
            k = k + 1;
            assert(overlay@ =~= second + Seq::new(
                k as nat,
                |i: int| OverlayDraw::Billboard(draw_billboards@[i].billboard),
            ));
        }
        crate::log::sort_logs(&mut logs);
        RenderEnd { logs, chambers, shading, camera_info, overlay, finished_at: now }
    }
}

/// One step of the end of a frame.
#[derive(Debug)]
pub enum EndStep<P> {
    /// One pass of the shading of a chamber.
    Shade { chamber_index: ChamberIndex, pass: ShadePass<P> },
    /// Bind the target of the 2D composition.
    Bind2d,
    /// One draw of the 2D overlay.
    Overlay(OverlayDraw<P>),
    /// Resolve the deferred buffer to the visible framebuffer.
    RenderFinal,
}

/// The shading passes of one chamber as steps of the frame's end.
pub open spec fn chamber_steps<P: Copy>(index: ChamberIndex, plan: Option<ShadePlan<P>>) -> Seq<
    EndStep<P>,
> {
    match plan {
        Some(p) => Seq::new(
            p.spec_passes().len(),
            |k: int| EndStep::Shade { chamber_index: index, pass: p.spec_passes()[k] },
        ),
        None => Seq::empty(),
    }
}

/// The shading passes of the first `upto` chambers, chamber after chamber
/// in ascending order.
pub open spec fn shading_steps<P: Copy>(shading: Seq<Option<ShadePlan<P>>>, upto: nat) -> Seq<
    EndStep<P>,
>
    decreases upto,
{
    if upto == 0 || upto > shading.len() {
        Seq::empty()
    } else {
        shading_steps(shading, (upto - 1) as nat) + chamber_steps(
            (upto - 1) as ChamberIndex,
            shading[upto - 1],
        )
    }
}

/// The end of a frame, step by step: every chamber is shaded, in
/// ascending order of the chambers; then the 2D target is bound and the
/// overlay drawn; last the frame is resolved to the screen.
pub open spec fn frame_end_steps<P: Copy>(
    shading: Seq<Option<ShadePlan<P>>>,
    overlay: Seq<OverlayDraw<P>>,
) -> Seq<EndStep<P>> {
    shading_steps(shading, shading.len()) + seq![EndStep::Bind2d] + Seq::new(
        overlay.len(),
        |k: int| EndStep::Overlay(overlay[k]),
    ) + seq![EndStep::RenderFinal]
}

fn copy_pass<P: Copy>(pass: &ShadePass<P>) -> (r: ShadePass<P>)
    ensures
        r == *pass,
{
    match pass {
        ShadePass::BindDeferredPass2 => ShadePass::BindDeferredPass2,
        ShadePass::OmniLight(x) => ShadePass::OmniLight(*x),
        ShadePass::AmbientLight(x) => ShadePass::AmbientLight(*x),
        ShadePass::ShadowMap(x) => ShadePass::ShadowMap(*x),
        ShadePass::MajorLight(x) => ShadePass::MajorLight(*x),
        ShadePass::PointLight(x) => ShadePass::PointLight(*x),
        ShadePass::Irradiance(x) => ShadePass::Irradiance(*x),
    }
}

fn copy_draw<P: Copy>(draw: &OverlayDraw<P>) -> (r: OverlayDraw<P>)
    ensures
        r == *draw,
{
    match draw {
        OverlayDraw::Image(x) => OverlayDraw::Image(*x),
        OverlayDraw::InternalTexture { texture, placement } => OverlayDraw::InternalTexture {
            texture: *texture,
            placement: *placement,
        },
        OverlayDraw::Billboard(x) => OverlayDraw::Billboard(*x),
    }
}

impl<P: Copy, V: Copy, S: Copy> RenderEnd<P, V, S> {
    /// What is left to do on the graphics device, in order.
    pub fn steps(&self) -> (r: Vec<EndStep<P>>)
        requires
            self.shading@.len() <= u32::MAX,
        ensures
            r@ == frame_end_steps(self.shading@, self.overlay@),
    {
        let mut r: Vec<EndStep<P>> = Vec::new();
        let mut i: usize = 0;
        while i < self.shading.len()
            invariant
                i <= self.shading@.len(),
                self.shading@.len() <= u32::MAX,
                r@ == shading_steps(self.shading@, i as nat),
            decreases self.shading@.len() - i,
        {
            let ghost done = r@;
            match &self.shading[i] {
                Some(plan) => {
                    let passes = plan.passes();
                    let mut k: usize = 0;
                    while k < passes.len()
                        invariant
                            k <= passes@.len(),
                            i < self.shading@.len(),
                            self.shading@.len() <= u32::MAX,
                            passes@ == plan.spec_passes(),
                            r@ == done + Seq::new(
                                k as nat,
                                |j: int|
                                    EndStep::Shade {
                                        chamber_index: i as ChamberIndex,
                                        pass: passes@[j],
                                    },
                            ),
                        decreases passes@.len() - k,
                    {
                        r.push(
                            EndStep::Shade {
                                chamber_index: i as ChamberIndex,
                                pass: copy_pass(&passes[k]),
                            },
                        );
                        k = k + 1;
                        assert(r@ =~= done + Seq::new(
                            k as nat,
                            |j: int|
                                EndStep::Shade {
                                    chamber_index: i as ChamberIndex,
                                    pass: passes@[j],
                                },
                        ));
                    }
                    assert(r@ =~= done + chamber_steps(i as ChamberIndex, self.shading@[i as int]));
                },
                None => {
                    assert(r@ =~= done + chamber_steps(i as ChamberIndex, self.shading@[i as int]));
                },
            }
            i = i + 1;
        }
        r.push(EndStep::Bind2d);
        let ghost head = r@;
        let mut k: usize = 0;
        while k < self.overlay.len()
            invariant
                k <= self.overlay@.len(),
                r@ == head + Seq::new(k as nat, |j: int| EndStep::Overlay(self.overlay@[j])),
            decreases self.overlay@.len() - k,
        {
            r.push(EndStep::Overlay(copy_draw(&self.overlay[k])));
            k = k + 1;
            assert(r@ =~= head + Seq::new(k as nat, |j: int| EndStep::Overlay(self.overlay@[j])));
        }
        r.push(EndStep::RenderFinal);
        r
    }
}

/// The internal texture of a name, if there is one of that name.
pub fn internal_texture(name: &String) -> (r: Option<InternalTexture>)
    ensures
        r == texture_named(name@),
{
    let normal: String = String::from_str("normal");
    let illumination: String = String::from_str("iv_illuminatiion");
    if *name == normal {
        Some(InternalTexture::Normal)
    } else if *name == illumination {
        Some(InternalTexture::IrradianceIllumination)
    } else {
        None
    }
}

/// An operation for a chamber that takes no part in the frame leaves
/// exactly one log line, which names the chamber, and nothing else: the
/// state and the draws stay as they were.
pub proof fn lemma_missing_chamber_leaves_one_line<P, V, S>(
    drain: Drain<P, V, S>,
    params: RendererParams,
    op: RenderOp<P>,
    now: i64,
)
    requires
        op.chamber().is_some(),
        !drain.state.present(op.chamber().unwrap()),
    ensures
        drain.step(params, op, now).state == drain.state,
        drain.step(params, op, now).actions == drain.actions,
        drain.step(params, op, now).logs == drain.logs.push(
            FrameLogView {
                timestamp: now,
                log: OpErrorView::InvalidChamberAccess(op.chamber().unwrap()).message(),
            },
        ),
{
}

/// Of two requests for irradiance shading of one chamber in one frame the
/// first is kept and the second is dropped with `InvalidShade`.
pub proof fn lemma_second_shade_request_is_dropped<P, V, S>(
    state: ContextView<P, V, S>,
    first: ShadeWithIv<P>,
    second: ShadeWithIv<P>,
)
    requires
        first.chamber_index == second.chamber_index,
        state.present(first.chamber_index),
        state.chambers[first.chamber_index as int].unwrap().1.shade_with_iv.is_none(),
    ensures
        state.rejection(RenderOp::ShadeWithIv(first)).is_none(),
        state.after(RenderOp::ShadeWithIv(first)).chambers[first.chamber_index as int].unwrap().1.shade_with_iv
            == Some(first),
        state.after(RenderOp::ShadeWithIv(first)).rejection(RenderOp::ShadeWithIv(second)) == Some(
            OpErrorView::InvalidShade(shade_request_text(first.chamber_index)),
        ),
        state.after(RenderOp::ShadeWithIv(first)).after(RenderOp::ShadeWithIv(second))
            == state.after(RenderOp::ShadeWithIv(first)),
{
}

/// Drawing an object that casts a shadow in a chamber of the frame is
/// accepted and adds exactly that object to the chamber's shadow casters;
/// an object without shadow adds none.
pub proof fn lemma_shadow_caster_is_recorded<P, V, S>(
    state: ContextView<P, V, S>,
    draw: crate::ops::DrawGeneral<P>,
)
    requires
        state.present(draw.object.chamber_index),
    ensures
        state.rejection(RenderOp::DrawGeneral(draw)).is_none(),
        state.after(RenderOp::DrawGeneral(draw)).chambers.len() == state.chambers.len(),
        state.after(RenderOp::DrawGeneral(draw)).chambers[draw.object.chamber_index as int].is_some(),
        state.after(RenderOp::DrawGeneral(draw)).chambers[draw.object.chamber_index as int].unwrap().1.shadow_objects
            == if draw.object.shadow {
            state.chambers[draw.object.chamber_index as int].unwrap().1.shadow_objects.push(
                ChamberShadowObject { body: draw.object.body },
            )
        } else {
            state.chambers[draw.object.chamber_index as int].unwrap().1.shadow_objects
        },
{
}

} // verus!
