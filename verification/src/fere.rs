//! The instance: a fixed number of chamber slots and the hand-over of the
//! graphics device and the chambers to one frame at a time.
use crate::chamber::Chamber;
use crate::configs::FereConfigs;
use crate::frame::{Frame, FrameConfig};
use crate::ops::{ChamberIndex, RenderOp};
use crate::renderer::{RenderEnd, Renderer, RendererParams};
use vstd::prelude::*;
use vstd::string::*;

verus! {

/// Why a request to the instance failed.
#[derive(Debug)]
pub enum Error {
    /// There is no such chamber, or no free slot for a new one.
    InvalidChamberAccess,
    RecordingError(String),
}

/// The instance. `G` is the graphics device, of which the instance only
/// knows whether it holds it; `V` and `S` are the caller's vector and
/// scalar types.
pub struct Fere<G, V, S> {
    pub graphics: Option<G>,
    pub configs: FereConfigs<S>,
    pub chambers: Vec<Option<Chamber<V, S>>>,
    /// Whether a recording session is open.
    pub recording: bool,
}

/// A frame that has been started: the producer's frame with the items that
/// open it, the renderer, and the graphics device, which the frame owns
/// until it ends.
pub struct FrameStart<P, G, V, S> {
    pub frame: Frame<P>,
    pub opening: Vec<RenderOp<P>>,
    pub renderer: Renderer<P, V, S>,
    pub graphics: G,
}

/// The parameters of a frame's renderer: outlines as the frame asks,
/// shadows on, irradiance volumes on where they are configured.
pub fn create_renderer_param<P, S>(configs: &FereConfigs<S>, frame_configs: &FrameConfig<P>) -> (r:
    RendererParams)
    ensures
        r == (RendererParams {
            debug_lightvolume_outline: frame_configs.show_lightvolume_outline,
            enable_shadow: true,
            enable_irradiance_volume: configs.irradiance_volume.is_some(),
        }),
{
    RendererParams {
        debug_lightvolume_outline: frame_configs.show_lightvolume_outline,
        enable_shadow: true,
        enable_irradiance_volume: configs.irradiance_volume.is_some(),
    }
}

impl<G, V: Copy, S: Copy> Fere<G, V, S> {
    /// The slots are no more than a chamber index can name, and every
    /// chamber is well formed.
    pub open spec fn wf(&self) -> bool {
        &&& self.chambers@.len() <= u32::MAX
        &&& forall|i: int|
            0 <= i < self.chambers@.len() && (#[trigger] self.chambers@[i]).is_some()
                ==> self.chambers@[i].unwrap().state.wf()
    }

    /// Whether a frame is in flight: the device is with the frame.
    pub open spec fn in_flight(&self) -> bool {
        self.graphics.is_none()
    }

    /// An instance that holds the device and `max_chamber_num` empty
    /// slots, or as many as a chamber index can name if that is fewer.
    pub fn new(configs: FereConfigs<S>, graphics: G) -> (r: Self)
        ensures
            r.wf(),
            !r.in_flight(),
            r.graphics == Some(graphics),
            r.configs == configs,
            !r.recording,
            r.chambers@.len() == if configs.max_chamber_num <= u32::MAX {
                configs.max_chamber_num as int
            } else {
                u32::MAX as int
            },
            forall|i: int| 0 <= i < r.chambers@.len() ==> (#[trigger] r.chambers@[i]).is_none(),
    {
        let n: usize = if configs.max_chamber_num <= 0xffff_ffff {
            configs.max_chamber_num
        } else {
            0xffff_ffff
        };
        let mut chambers: Vec<Option<Chamber<V, S>>> = Vec::new();
        let mut i: usize = 0;
        while i < n
            invariant
                i <= n,
                chambers@.len() == i,
                forall|j: int| 0 <= j < i ==> (#[trigger] chambers@[j]).is_none(),
            decreases n - i,
        {
            chambers.push(None);
            i = i + 1;
        }
        Fere { graphics: Some(graphics), configs, chambers, recording: false }
    }

    pub fn configs(&self) -> (r: &FereConfigs<S>)
        ensures
            *r == self.configs,
    {
        &self.configs
    }

    /// The graphics device. There is none while a frame is in flight.
    pub fn graphics(&self) -> (r: &G)
        requires
            !self.in_flight(),
        ensures
            Some(*r) == self.graphics,
    {
        self.graphics.as_ref().unwrap()
    }

    /// Puts a chamber into the first free slot and returns the slot's
    /// index. Where every slot is taken, nothing changes and the answer is
    /// `InvalidChamberAccess`.
    pub fn add_chamber(&mut self, chamber: Chamber<V, S>) -> (r: Result<ChamberIndex, Error>)
        requires
            old(self).wf(),
            chamber.state.wf(),
        ensures
            final(self).wf(),
            final(self).graphics == old(self).graphics,
            final(self).configs == old(self).configs,
            final(self).recording == old(self).recording,
            match r {
                Ok(index) => {
                    &&& index < old(self).chambers@.len()
                    &&& old(self).chambers@[index as int].is_none()
                    &&& forall|j: int| 0 <= j < index ==> old(self).chambers@[j].is_some()
                    &&& final(self).chambers@ == old(self).chambers@.update(
                        index as int,
                        Some(chamber),
                    )
                },
                Err(e) => {
                    &&& e is InvalidChamberAccess
                    &&& forall|j: int|
                        0 <= j < old(self).chambers@.len() ==> old(self).chambers@[j].is_some()
                    &&& final(self).chambers == old(self).chambers
                },
            },
    {
        let mut i: usize = 0;
        while i < self.chambers.len()
            invariant
                i <= self.chambers@.len(),
                *self == *old(self),
                self.wf(),
                chamber.state.wf(),
                forall|j: int| 0 <= j < i ==> self.chambers@[j].is_some(),
            decreases self.chambers@.len() - i,
        {
            if self.chambers[i].is_none() {
                self.chambers.set(i, Some(chamber));
                return Ok(i as ChamberIndex);
            }
            i = i + 1;
        }
        Err(Error::InvalidChamberAccess)
    }

    /// Whether a chamber sits in the slot with this index.
    pub fn has_chamber(&self, index: ChamberIndex) -> (r: bool)
        ensures
            r == (index < self.chambers@.len() && self.chambers@[index as int].is_some()),
    {
        (index as usize) < self.chambers.len() && self.chambers[index as usize].is_some()
    }

    /// Empties the slot of an existing chamber and returns the chamber.
    pub fn remove_chamber(&mut self, index: ChamberIndex) -> (r: Chamber<V, S>)
        requires
            old(self).wf(),
            index < old(self).chambers@.len(),
            old(self).chambers@[index as int].is_some(),
        ensures
            final(self).wf(),
            final(self).graphics == old(self).graphics,
            final(self).configs == old(self).configs,
            final(self).recording == old(self).recording,
            Some(r) == old(self).chambers@[index as int],
            final(self).chambers@ == old(self).chambers@.update(index as int, None),
    {
        let taken: Option<Chamber<V, S>> = self.chambers[index as usize].take();
        assert(self.chambers@ =~= old(self).chambers@.update(index as int, None));
        taken.unwrap()
    }

    /// Starts a frame. The device and every chamber move into the frame:
    /// until `end_frame` the instance holds neither, and no second frame
    /// can start.
    pub fn new_frame<P: Copy>(&mut self, config: FrameConfig<P>) -> (r: FrameStart<P, G, V, S>)
        requires
            old(self).wf(),
            !old(self).in_flight(),
        ensures
            final(self).wf(),
            final(self).in_flight(),
            final(self).configs == old(self).configs,
            final(self).recording == old(self).recording,
            final(self).chambers@.len() == old(self).chambers@.len(),
            forall|i: int|
                0 <= i < final(self).chambers@.len() ==> (#[trigger] final(self).chambers@[i]).is_none(),
            Some(r.graphics) == old(self).graphics,
            r.frame.config == config,
            r.opening@.len() == 2,
            r.opening@[0] is StartFrame,
            r.opening@[1] == RenderOp::SetCamera(config.camera),
            r.renderer.wf(),
            r.renderer.phase == crate::renderer::RenderPhase::Idle,
            r.renderer.ctx.params == (RendererParams {
                debug_lightvolume_outline: config.show_lightvolume_outline,
                enable_shadow: true,
                enable_irradiance_volume: old(self).configs.irradiance_volume.is_some(),
            }),
            r.renderer.logs@.len() == 0,
            r.renderer.ctx.camera_info.is_none(),
            r.renderer.ctx.chamber_contexts@.len() == old(self).chambers@.len(),
            forall|i: int|
                0 <= i < old(self).chambers@.len() ==> match (#[trigger] old(self).chambers@[i]) {
                    Some(c) => r.renderer.ctx.chamber_contexts@[i].is_some()
                        && r.renderer.ctx.chamber_contexts@[i].unwrap().chamber == c,
                    None => r.renderer.ctx.chamber_contexts@[i].is_none(),
                },
    {
        let graphics: G = self.graphics.take().unwrap();
        let params = create_renderer_param(&self.configs, &config);
        let mut taken: Vec<Option<Chamber<V, S>>> = Vec::new();
        let mut i: usize = 0;
        while i < self.chambers.len()
            invariant
                i <= self.chambers@.len(),
                self.chambers@.len() == old(self).chambers@.len(),
                self.configs == old(self).configs,
                self.recording == old(self).recording,
                self.graphics.is_none(),
                taken@.len() == i,
                forall|j: int| 0 <= j < i ==> (#[trigger] self.chambers@[j]).is_none(),
                forall|j: int| 0 <= j < i ==> taken@[j] == old(self).chambers@[j],
                forall|j: int|
                    i <= j < self.chambers@.len() ==> self.chambers@[j] == old(self).chambers@[j],
            decreases self.chambers@.len() - i,
        {
            let slot: Option<Chamber<V, S>> = self.chambers[i].take();
            taken.push(slot);
            i = i + 1;
        }
        assert(taken@ =~= old(self).chambers@);
        let renderer: Renderer<P, V, S> = Renderer::new(params, taken);
        let opened = Frame::new(config);
        FrameStart { frame: opened.0, opening: opened.1, renderer, graphics }
    }

    /// Ends the frame in flight: the device and the chambers return to the
    /// instance. Hands back the frame's log, in the order of its
    /// timestamps.
    pub fn end_frame<P: Copy>(&mut self, render_end: RenderEnd<P, V, S>, graphics: G) -> (logs: Vec<
        crate::log::FrameLog,
    >)
        requires
            old(self).in_flight(),
            render_end.chambers@.len() <= u32::MAX,
            forall|i: int|
                0 <= i < render_end.chambers@.len() && (#[trigger] render_end.chambers@[i]).is_some()
                    ==> render_end.chambers@[i].unwrap().state.wf(),
        ensures
            final(self).wf(),
            !final(self).in_flight(),
            final(self).graphics == Some(graphics),
            final(self).chambers == render_end.chambers,
            final(self).configs == old(self).configs,
            final(self).recording == old(self).recording,
            crate::log::chronological(logs@),
            logs@.to_multiset() == render_end.logs@.to_multiset(),
            crate::log::log_views(logs@) == crate::log::in_order(
                crate::log::log_views(render_end.logs@),
            ),
    {
        let RenderEnd {
            logs,
            chambers,
            shading: _,
            camera_info: _,
            overlay: _,
            finished_at: _,
        } = render_end;
        let mut logs = logs;
        crate::log::sort_logs(&mut logs);
        self.chambers = chambers;
        self.graphics = Some(graphics);
        logs
    }

    /// Opens a recording session. Where one is open already, nothing
    /// changes and the answer is a `RecordingError`.
    pub fn start_recording(&mut self) -> (r: Result<(), Error>)
        ensures
            r.is_err() == old(self).recording,
            r matches Err(e) ==> e matches Error::RecordingError(what) && what@
                == "start_recording() while there's already a session"@,
            final(self).recording,
            final(self).graphics == old(self).graphics,
            final(self).configs == old(self).configs,
            final(self).chambers == old(self).chambers,
    {
        if self.recording {
            Err(
                Error::RecordingError(
                    String::from_str("start_recording() while there's already a session"),
                ),
            )
        } else {
            self.recording = true;
            Ok(())
        }
    }

    /// Closes the recording session. Where none is open, nothing changes
    /// and the answer is a `RecordingError`.
    pub fn end_recording(&mut self) -> (r: Result<(), Error>)
        ensures
            r.is_err() == !old(self).recording,
            r matches Err(e) ==> e matches Error::RecordingError(what) && what@
                == "end_recording() called without recording session"@,
            !final(self).recording,
            final(self).graphics == old(self).graphics,
            final(self).configs == old(self).configs,
            final(self).chambers == old(self).chambers,
    {
        if self.recording {
            self.recording = false;
            Ok(())
        } else {
            Err(
                Error::RecordingError(
                    String::from_str("end_recording() called without recording session"),
                ),
            )
        }
    }
}

} // verus!
