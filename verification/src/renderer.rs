//! The frame orchestrator: the state of a renderer between and within
//! frames, and the steps of a frame in the one order in which they may
//! happen.
//!
//! A frame goes `Idle -> InputApplied -> UiExecuted -> AtlasSynced ->
//! Submitted -> Idle`. The caller runs the UI engine and the GPU; each step
//! here tells it what to do next and refuses to be taken out of turn, so a
//! draw list cannot be had before the atlas was synced.

use crate::atlas::{AtlasSync, TextureAtlas, TextureAtlasView};
use crate::bytes::native_words;
use crate::frame::{all_drawable, draw_list, is_draw_list_of, FramePlan, PaintBatch, RenderTarget};
use crate::geometry::TexCoordConvention;
use crate::input::{last_density, last_resize, EventBridge, FrameInput};
use crate::pipeline::{ColorFormat, Pipeline, PipelineSetup, PipelineView, UNIFORM_SIZE};
use crate::scalar::Scalar;
use vstd::prelude::*;

verus! {

/// Where a renderer stands in the frame.
#[derive(Clone, Copy, Debug, PartialEq, Eq, Structural)]
pub enum FrameStage {
    /// Between frames.
    Idle,
    /// The input snapshot was stamped and handed to the UI engine.
    InputApplied,
    /// The UI engine ran the draw callback and ended its frame.
    UiExecuted,
    /// The GPU texture holds the atlas of this frame.
    AtlasSynced,
    /// The draw list was handed out for submission.
    Submitted,
}

/// Why a step of a frame was refused.
#[derive(Clone, Copy, Debug, PartialEq, Eq, Structural)]
pub enum FrameError {
    /// The step is not the next one of the frame.
    OutOfOrder { expected: FrameStage, found: FrameStage },
    /// A batch that has indices cannot be drawn: it has more indices than
    /// a draw call can state, or a vertex of it has its texture coordinate
    /// in another convention than the pipeline.
    InvalidBatch,
}

/// What a renderer is made from.
#[derive(Clone, Copy, Debug, PartialEq, Eq)]
pub struct EguiRendererDescriptor {
    /// The color format of the surface that the UI is drawn to.
    pub fmt: ColorFormat,
    /// The convention of the texture coordinates that the UI engine emits.
    pub convention: TexCoordConvention,
    /// The size of the screen in logical pixels.
    pub screen_size: (Scalar, Scalar),
    /// Physical pixels per logical pixel.
    pub ppp: Scalar,
}

/// The state of a renderer, as mathematics sees it.
pub struct RendererView {
    pub pipeline: PipelineView,
    /// The input accumulated for the next frame.
    pub input: FrameInput,
    /// The density that coordinate conversions go by. It outlives the
    /// input snapshot, which starts afresh with every frame.
    pub ppp: Scalar,
    pub stage: FrameStage,
}

impl RendererView {
    /// The state after an event: the input snapshot records it, a resize
    /// also becomes the screen size that the uniform buffer should hold, and
    /// a change of density also becomes the density of the renderer.
    pub open spec fn consumed(self, event: EventBridge) -> RendererView {
        RendererView {
            input: self.input.applied(event),
            pipeline: match event {
                EventBridge::Resize { w, h } => PipelineView {
                    uniform: self.pipeline.uniform.with_screen_size(w, h),
                    ..self.pipeline
                },
                _ => self.pipeline,
            },
            ppp: match event {
                EventBridge::PppChanged(ppp) => ppp,
                _ => self.ppp,
            },
            ..self
        }
    }

    /// The state after a run of events, in order.
    pub open spec fn consumed_all(self, events: Seq<EventBridge>) -> RendererView
        decreases events.len(),
    {
        if events.len() == 0 {
            self
        } else {
            self.consumed_all(events.drop_last()).consumed(events.last())
        }
    }

    /// The state after the draw list of a frame was made for a target of
    /// the given format: there is a pipeline for the format, the uniform
    /// buffer holds what it should, and the frame is handed out.
    pub open spec fn drawn(self, format: ColorFormat) -> RendererView {
        RendererView {
            pipeline: PipelineView {
                uniform_on_gpu: self.pipeline.uniform,
                ..self.pipeline.with_pipeline(format)
            },
            stage: FrameStage::Submitted,
            ..self
        }
    }

    /// The same state at another stage of the frame.
    pub open spec fn at_stage(self, stage: FrameStage) -> RendererView {
        RendererView { stage, ..self }
    }
}

/// The renderer: the pipeline and binding manager, the input snapshot of
/// the frame to come, and the stage of the frame.
#[derive(Debug)]
pub struct EguiRenderer {
    ui_pl: Pipeline,
    raw_input: FrameInput,
    ppp: Scalar,
    stage: FrameStage,
}

impl View for EguiRenderer {
    type V = RendererView;

    closed spec fn view(&self) -> RendererView {
        RendererView {
            pipeline: self.ui_pl@,
            input: self.raw_input,
            ppp: self.ppp,
            stage: self.stage,
        }
    }
}

impl EguiRenderer {
    /// The state of a renderer that was just made: idle, the pipeline
    /// manager set up for the format with the screen as its target, and an
    /// input snapshot that holds the screen size and the density and is
    /// fresh otherwise.
    pub open spec fn initial(desc: EguiRendererDescriptor, tex: TextureAtlasView) -> RendererView {
        RendererView {
            pipeline: Pipeline::initial(
                tex,
                desc.fmt,
                desc.convention,
                desc.screen_size,
                desc.screen_size,
            ),
            input: FrameInput {
                screen_size: desc.screen_size,
                pixels_per_point: desc.ppp,
                ..FrameInput::fresh(0)
            },
            ppp: desc.ppp,
            stage: FrameStage::Idle,
        }
    }

    /// Makes a renderer for the atlas of the UI engine, and says what has
    /// to be created on the GPU for it.
    pub fn new(desc: EguiRendererDescriptor, tex: &TextureAtlas) -> (r: (
        EguiRenderer,
        PipelineSetup,
    ))
        ensures
            r.0@ == EguiRenderer::initial(desc, tex@),
            r.0@.pipeline.wf(),
            r.1.sets_up(r.0@.pipeline, tex@),
    {
        let mut raw_input = FrameInput::new(0);
        raw_input.screen_size = desc.screen_size;
        raw_input.pixels_per_point = desc.ppp;
        let (ui_pl, setup) = Pipeline::new(
            tex,
            desc.fmt,
            desc.convention,
            desc.screen_size,
            desc.screen_size,
        );
        (EguiRenderer { ui_pl, raw_input, ppp: desc.ppp, stage: FrameStage::Idle }, setup)
    }

    /// The stage of the frame.
    pub fn stage(&self) -> (stage: FrameStage)
        ensures
            stage == self@.stage,
    {
        self.stage
    }

    /// The density that coordinate conversions go by.
    pub fn pixels_per_point(&self) -> (ppp: Scalar)
        ensures
            ppp == self@.ppp,
    {
        self.ppp
    }

    /// The input accumulated for the next frame.
    pub fn raw_input(&self) -> (input: FrameInput)
        ensures
            input == self@.input,
    {
        self.raw_input
    }

    /// The pipeline and binding manager.
    pub fn pipeline(&self) -> (pipeline: &Pipeline)
        ensures
            pipeline@ == self@.pipeline,
    {
        &self.ui_pl
    }

    /// Takes in an event, see [`RendererView::consumed`]. Positions are
    /// expected in logical pixels: the caller divides what the platform
    /// reports in physical pixels by [`EguiRenderer::pixels_per_point`].
    pub fn consume_event(&mut self, input: EventBridge)
        ensures
            final(self)@ == old(self)@.consumed(input),
    {
        self.raw_input.apply(input);
        match input {
            EventBridge::Resize { w, h } => {
                self.ui_pl.update_screen_size(w, h);
            },
            EventBridge::PppChanged(ppp) => {
                self.ppp = ppp;
            },
            _ => {},
        }
    }

    /// Sets the density, as a change of density reported by the platform does.
    pub fn set_dpi(&mut self, dpi: Scalar)
        ensures
            final(self)@ == old(self)@.consumed(EventBridge::PppChanged(dpi)),
    {
        self.consume_event(EventBridge::PppChanged(dpi));
    }

    /// Begins a frame: stamps the input snapshot with the time since the
    /// renderer was started and hands it out for the UI engine. What stays
    /// behind for the next frame is a fresh snapshot with that time. The
    /// step is taken from `Idle` and leads to `InputApplied`.
    pub fn begin_frame(&mut self, elapsed_nanos: u64) -> (r: Result<FrameInput, FrameError>)
        ensures
            old(self)@.stage == FrameStage::Idle ==> r == Ok::<FrameInput, FrameError>(
                old(self)@.input.at(elapsed_nanos),
            ) && final(self)@ == (RendererView {
                input: FrameInput::fresh(elapsed_nanos),
                stage: FrameStage::InputApplied,
                ..old(self)@
            }),
            old(self)@.stage != FrameStage::Idle ==> r == Err::<FrameInput, FrameError>(
                FrameError::OutOfOrder { expected: FrameStage::Idle, found: old(self)@.stage },
            ) && final(self)@ == old(self)@,
    {
        if self.stage != FrameStage::Idle {
            return Err(FrameError::OutOfOrder { expected: FrameStage::Idle, found: self.stage });
        }
        let snapshot = self.raw_input.take(elapsed_nanos);
        self.stage = FrameStage::InputApplied;
        Ok(snapshot)
    }

    /// Records that the UI engine has run the draw callback and ended its
    /// frame. The step is taken from `InputApplied` and leads to `UiExecuted`.
    pub fn end_frame(&mut self) -> (r: Result<(), FrameError>)
        ensures
            old(self)@.stage == FrameStage::InputApplied ==> r is Ok && final(self)@ == old(
                self,
            )@.at_stage(FrameStage::UiExecuted),
            old(self)@.stage != FrameStage::InputApplied ==> r == Err::<(), FrameError>(
                FrameError::OutOfOrder {
                    expected: FrameStage::InputApplied,
                    found: old(self)@.stage,
                },
            ) && final(self)@ == old(self)@,
    {
        if self.stage != FrameStage::InputApplied {
            return Err(
                FrameError::OutOfOrder { expected: FrameStage::InputApplied, found: self.stage },
            );
        }
        self.stage = FrameStage::UiExecuted;
        Ok(())
    }

    /// Brings the GPU texture up to the atlas that the UI engine holds
    /// after its frame, see [`Pipeline::sync_texture`]. The step is taken
    /// from `UiExecuted` and leads to `AtlasSynced`; after it the texture
    /// holds the version of the atlas.
    pub fn sync_texture(&mut self, tex: &TextureAtlas) -> (r: Result<AtlasSync, FrameError>)
        ensures
            old(self)@.stage == FrameStage::UiExecuted ==> r is Ok && final(self)@ == (
            RendererView {
                pipeline: PipelineView {
                    mirror: old(self)@.pipeline.mirror.synced(tex@),
                    ..old(self)@.pipeline
                },
                stage: FrameStage::AtlasSynced,
                ..old(self)@
            }) && final(self)@.pipeline.mirror.last_version == tex@.version,
            r matches Ok(action) ==> action.kind() == old(self)@.pipeline.mirror.sync_kind(tex@)
                && action.writes(tex@),
            old(self)@.stage != FrameStage::UiExecuted ==> r is Err && final(self)@ == old(self)@,
            r matches Err(e) ==> e == (FrameError::OutOfOrder {
                expected: FrameStage::UiExecuted,
                found: old(self)@.stage,
            }),
    {
        if self.stage != FrameStage::UiExecuted {
            return Err(
                FrameError::OutOfOrder { expected: FrameStage::UiExecuted, found: self.stage },
            );
        }
        let action = self.ui_pl.sync_texture(tex);
        self.stage = FrameStage::AtlasSynced;
        Ok(action)
    }

    /// Makes the draw list of the frame from the batches that the UI
    /// engine painted, in their order, for the given target. The plan names
    /// the pipeline of the target's format, carries the write of the uniform
    /// buffer if it does not hold what it should, and one draw call for each
    /// batch that has indices. The step is taken from `AtlasSynced` and leads
    /// to `Submitted`; where it is refused, nothing has changed.
    pub fn draw_on(&mut self, jobs: &[PaintBatch], target: RenderTarget) -> (r: Result<
        FramePlan,
        FrameError,
    >)
        ensures
            r is Ok <==> old(self)@.stage == FrameStage::AtlasSynced && all_drawable(
                jobs@,
                old(self)@.pipeline.convention,
            ),
            r matches Ok(plan) ==> {
                &&& final(self)@ == old(self)@.drawn(target.format)
                &&& final(self)@.pipeline.wf()
                &&& plan.pipeline.index < final(self)@.pipeline.formats.len()
                &&& final(self)@.pipeline.formats[plan.pipeline.index as int] == target.format
                &&& plan.pipeline.built <==> !old(self)@.pipeline.formats.contains(target.format)
                &&& plan.uniform is Some <==> old(self)@.pipeline.uniform != old(
                    self,
                )@.pipeline.uniform_on_gpu
                &&& plan.uniform matches Some(bytes) ==> native_words(
                    old(self)@.pipeline.uniform.words(),
                    bytes@,
                ) && bytes@.len() == UNIFORM_SIZE
                &&& is_draw_list_of(
                    plan.draws@,
                    jobs@,
                    old(self)@.pipeline.convention,
                    target.width,
                    target.height,
                )
            },
            r matches Err(e) ==> final(self)@ == old(self)@ && e == (if old(self)@.stage
                != FrameStage::AtlasSynced {
                FrameError::OutOfOrder { expected: FrameStage::AtlasSynced, found: old(self)@.stage }
            } else {
                FrameError::InvalidBatch
            }),
    {
        if self.stage != FrameStage::AtlasSynced {
            return Err(
                FrameError::OutOfOrder { expected: FrameStage::AtlasSynced, found: self.stage },
            );
        }
        let draws = match draw_list(jobs, self.ui_pl.convention(), target.width, target.height) {
            None => {
                return Err(FrameError::InvalidBatch);
            },
            Some(draws) => draws,
        };
        let pipeline = self.ui_pl.get_or_build(target.format);
        let uniform = self.ui_pl.flush_uniform();
        self.stage = FrameStage::Submitted;
        Ok(FramePlan { pipeline, uniform, draws })
    }

    /// Records that the commands of the frame were submitted. The buffers
    /// of the draw list are not used again. The step is taken from
    /// `Submitted` and leads back to `Idle`.
    pub fn finish_frame(&mut self) -> (r: Result<(), FrameError>)
        ensures
            old(self)@.stage == FrameStage::Submitted ==> r is Ok && final(self)@ == old(
                self,
            )@.at_stage(FrameStage::Idle),
            old(self)@.stage != FrameStage::Submitted ==> r == Err::<(), FrameError>(
                FrameError::OutOfOrder { expected: FrameStage::Submitted, found: old(self)@.stage },
            ) && final(self)@ == old(self)@,
    {
        if self.stage != FrameStage::Submitted {
            return Err(
                FrameError::OutOfOrder { expected: FrameStage::Submitted, found: self.stage },
            );
        }
        self.stage = FrameStage::Idle;
        Ok(())
    }
}

/// Events change neither the stage of the frame nor what the GPU holds, and
/// of the uniform buffer only the screen size that it should hold.
pub proof fn lemma_events_leave_frame_alone(state: RendererView, events: Seq<EventBridge>)
    ensures
        state.consumed_all(events).stage == state.stage,
        state.consumed_all(events).pipeline.mirror == state.pipeline.mirror,
        state.consumed_all(events).pipeline.formats == state.pipeline.formats,
        state.consumed_all(events).pipeline.convention == state.pipeline.convention,
        state.consumed_all(events).pipeline.uniform_on_gpu == state.pipeline.uniform_on_gpu,
        state.consumed_all(events).pipeline.uniform.target_width
            == state.pipeline.uniform.target_width,
        state.consumed_all(events).pipeline.uniform.target_height
            == state.pipeline.uniform.target_height,
    decreases events.len(),
{
    if events.len() > 0 {
        lemma_events_leave_frame_alone(state, events.drop_last());
    }
}

/// After any run of events, the screen size that the uniform buffer should
/// hold is that of the last resize among them (and the one it should hold
/// before, where there was no resize), and the draw list that is made next
/// brings the buffer to exactly that: no draw of the frame sees an older
/// size.
pub proof fn lemma_last_resize_reaches_uniform(
    state: RendererView,
    events: Seq<EventBridge>,
    format: ColorFormat,
)
    ensures
        ({
            let wanted = state.consumed_all(events).pipeline.uniform;
            let on_gpu = state.consumed_all(events).drawn(format).pipeline.uniform_on_gpu;
            &&& (wanted.screen_width, wanted.screen_height) == match last_resize(events) {
                Some(size) => size,
                None => (state.pipeline.uniform.screen_width, state.pipeline.uniform.screen_height),
            }
            &&& on_gpu == wanted
        }),
    decreases events.len(),
{
    if events.len() > 0 {
        lemma_last_resize_reaches_uniform(state, events.drop_last(), format);
    }
}

/// After any run of events, the density of the renderer is that of the
/// last change of density among them, and the one before where there was
/// none: every later conversion goes by it.
pub proof fn lemma_last_density_holds(state: RendererView, events: Seq<EventBridge>)
    ensures
        state.consumed_all(events).ppp == match last_density(events) {
            Some(ppp) => ppp,
            None => state.ppp,
        },
    decreases events.len(),
{
    if events.len() > 0 {
        lemma_last_density_holds(state, events.drop_last());
    }
}

} // verus!
