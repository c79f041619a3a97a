//! The frame engine: one frame cycle is rebuild-if-needed, acquire, compose,
//! submit and present, decided here step by step and performed by the caller.

use vstd::prelude::*;
use crate::command::{
    ClearPolicy,
    CommandBufferUsage,
    CommandStream,
    RecordError,
    RecordedOp,
    SubpassContents,
    VkBuilder,
};
use crate::composer::{
    all_drawable,
    all_loading,
    compose,
    composed_ops,
    draw_ops,
    lemma_compose_succeeds,
    overlay_ops,
    overlay_for,
    pick_overlay,
    record_batches,
    record_overlay,
    ComposeError,
    DrawBatch,
    OverlayPass,
};
use crate::pipeline::ReadyPipeline;
use crate::presenter::{
    lemma_step_wf,
    Phase,
    PresentAction,
    PresentError,
    PresentEvent,
    Presenter,
    PresenterState,
    RecreatePlan,
    RecreateStep,
};
use crate::swapchain::{Extent, Swapchain, SwapchainCreateInfo};
use crate::target::{
    build_targets,
    primary_layout,
    render_pass_with_depth,
    targets_for,
    FrameTarget,
    RenderPassLayout,
};

verus! {

/// What the device answered to the engine's last action.
#[derive(Clone, Copy, Debug, PartialEq, Eq, Structural)]
pub enum FrameEvent {
    /// The rebuild went through: the new chain has `image_count` images, and
    /// `pipeline` is the pipeline object in force after it.
    Recreated { image_count: usize, pipeline: u64 },
    /// The rebuild failed: the surface is gone.
    RecreateFailed,
    /// An answer to an action of the presenter.
    Device(PresentEvent),
}

/// What the caller is to do next.
#[derive(Clone, Copy, Debug, PartialEq, Eq)]
pub enum FrameAction {
    /// Rebuild the chain with `info`, then the frame targets, then, where the
    /// plan says so, the pipeline's viewport state.
    Recreate { info: SwapchainCreateInfo, plan: RecreatePlan },
    /// An action of the presenter. For a submission the stream to submit is
    /// the engine's [`Renderer::command_buffer`].
    Device(PresentAction),
}

/// Why the engine did not act.
#[derive(Clone, Copy, Debug, PartialEq, Eq, Structural)]
pub enum FrameError {
    /// A frame is under way.
    FrameInProgress,
    /// The surface did not survive the rebuild: the frame loop must end.
    SurfaceLost,
    /// Draw work was refused.
    Compose(ComposeError),
    /// The presenter refused the event.
    Present(PresentError),
}

/// The engine as a value.
pub struct RendererState {
    pub presenter: PresenterState,
    pub swapchain: Swapchain,
    pub layout: RenderPassLayout,
    /// One target per image of the chain.
    pub framebuffers: Seq<FrameTarget>,
    pub pipeline: ReadyPipeline,
    /// The draw work registered for the frame.
    pub batches: Seq<DrawBatch>,
    /// The overlays registered for the frame.
    pub overlays: Seq<OverlayPass>,
    /// The stream composed for the frame, from submission to the frame's end.
    pub stream: Option<Seq<RecordedOp>>,
    /// The rebuild that is under way.
    pub recreating: Option<RecreatePlan>,
}

impl RendererState {
    /// The engine over a fresh chain.
    pub open spec fn initial(swapchain: Swapchain, pipeline: ReadyPipeline) -> RendererState {
        RendererState {
            presenter: PresenterState::initial(swapchain.image_count as nat),
            swapchain,
            layout: primary_layout(Some(swapchain)),
            framebuffers: targets_for(swapchain.images(), primary_layout(Some(swapchain)), None),
            pipeline,
            batches: Seq::empty(),
            overlays: Seq::empty(),
            stream: None,
            recreating: None,
        }
    }

    /// No frame and no rebuild is under way.
    pub open spec fn idle(self) -> bool {
        self.recreating is None && self.presenter.phase == Phase::Idle
    }

    /// The operations of the frame's stream when drawn to image `image`.
    pub open spec fn composed(self, image: usize) -> Seq<RecordedOp> {
        composed_ops(
            self.framebuffers[image as int],
            self.pipeline,
            self.batches,
            overlay_for(self.overlays, self.framebuffers[image as int]),
        )
    }

    /// The invariant of every engine: there are as many slots as images and
    /// one target per image of the chain in force, built for the primary pass
    /// over that chain; all registered work can be composed; a rebuild
    /// happens between frames; and the frame's stream exists exactly from
    /// submission to the frame's end.
    pub open spec fn wf(self) -> bool {
        &&& self.presenter.wf()
        &&& self.presenter.slots.len() == self.swapchain.image_count
        &&& self.layout == primary_layout(Some(self.swapchain))
        &&& self.framebuffers == targets_for(self.swapchain.images(), self.layout, None)
        &&& all_drawable(self.batches)
        &&& all_loading(self.overlays)
        &&& (self.recreating matches Some(plan) ==> self.presenter.phase == Phase::Idle
            && plan.extent.nonzero())
        &&& match self.presenter.phase {
            Phase::Submitted { image } | Phase::PresentRequested { image } => self.stream == Some(
                self.composed(image),
            ),
            _ => self.stream is None,
        }
    }

    /// The engine once a frame is over: its draw work, overlays and stream
    /// are gone.
    pub open spec fn ended(self) -> RendererState {
        RendererState { batches: Seq::empty(), overlays: Seq::empty(), stream: None, ..self }
    }

    /// Starting a frame for a window of size `extent`. While a frame is under
    /// way nothing happens. Otherwise a resize request raises the flag; a
    /// raised flag starts the rebuild, unless the window has a zero
    /// dimension; with nothing to rebuild the next image is asked for.
    pub open spec fn begin(self, extent: Extent, resize_requested: bool) -> (RendererState, Result<
        FrameAction,
        FrameError,
    >) {
        if !self.idle() {
            (self, Err(FrameError::FrameInProgress))
        } else {
            let flagged = PresenterState {
                window_resized: self.presenter.window_resized || resize_requested,
                ..self.presenter
            };
            match flagged.plan(extent) {
                Some(plan) => (
                    RendererState {
                        presenter: flagged.planned(extent),
                        recreating: Some(plan),
                        ..self
                    },
                    Ok(
                        FrameAction::Recreate {
                            info: self.swapchain.recreated(extent, 0).info,
                            plan,
                        },
                    ),
                ),
                None => (
                    RendererState {
                        presenter: flagged.step(PresentEvent::FrameRequested).0,
                        ..self
                    },
                    Ok(FrameAction::Device(PresentAction::AcquireImage)),
                ),
            }
        }
    }

    /// The engine after the rebuild that `plan` asked for came back with
    /// `image_count` images and the pipeline object `pipeline`.
    pub open spec fn rebuilt(self, plan: RecreatePlan, image_count: usize, pipeline: u64) -> RendererState {
        let chain = self.swapchain.recreated(plan.extent, image_count);
        RendererState {
            presenter: self.presenter.resized(image_count as nat).step(
                PresentEvent::FrameRequested,
            ).0,
            swapchain: chain,
            framebuffers: targets_for(chain.images(), self.layout, None),
            pipeline: if plan.viewport {
                self.pipeline.rebuilt(pipeline, plan.extent)
            } else {
                self.pipeline
            },
            recreating: None,
            ..self
        }
    }

    /// The transition on one event. A finished rebuild installs the new
    /// chain, targets and viewport and asks for the next image; a failed one
    /// ends the frame with the surface lost. Everything else is the
    /// presenter's: when it submits, the frame's stream is composed for the
    /// acquired image; when the frame ends, the frame's work is discarded.
    /// A frame is started by [`Self::begin`] alone, which looks at the
    /// rebuild flags first: the request for a frame is no event.
    pub open spec fn step(self, event: FrameEvent) -> (RendererState, Result<
        FrameAction,
        FrameError,
    >) {
        match (self.recreating, event) {
            (Some(plan), FrameEvent::Recreated { image_count, pipeline }) => (
                self.rebuilt(plan, image_count, pipeline),
                Ok(FrameAction::Device(PresentAction::AcquireImage)),
            ),
            (Some(plan), FrameEvent::RecreateFailed) => (
                RendererState { recreating: None, ..self.ended() },
                Err(FrameError::SurfaceLost),
            ),
            (None, FrameEvent::Device(PresentEvent::FrameRequested)) => (
                self,
                Err(FrameError::Present(PresentError::UnexpectedEvent)),
            ),
            (None, FrameEvent::Device(e)) => {
                let (presenter, answer) = self.presenter.step(e);
                let stepped = RendererState { presenter, ..self };
                match answer {
                    Ok(PresentAction::Submit { image, after, signal }) => (
                        RendererState { stream: Some(self.composed(image)), ..stepped },
                        Ok(FrameAction::Device(PresentAction::Submit { image, after, signal })),
                    ),
                    Ok(PresentAction::FrameDone) => (
                        stepped.ended(),
                        Ok(FrameAction::Device(PresentAction::FrameDone)),
                    ),
                    Ok(PresentAction::FrameDropped) => (
                        stepped.ended(),
                        Ok(FrameAction::Device(PresentAction::FrameDropped)),
                    ),
                    Ok(action) => (stepped, Ok(FrameAction::Device(action))),
                    Err(PresentError::DeviceLost) => (
                        stepped.ended(),
                        Err(FrameError::Present(PresentError::DeviceLost)),
                    ),
                    Err(e) => (stepped, Err(FrameError::Present(e))),
                }
            },
            _ => (self, Err(FrameError::Present(PresentError::UnexpectedEvent))),
        }
    }
}

/// The frame engine. It owns the description of the chain and its targets,
/// the presenter, and the draw work registered for the frame under way.
pub struct Renderer {
    presenter: Presenter,
    swapchain: Swapchain,
    layout: RenderPassLayout,
    framebuffers: Vec<FrameTarget>,
    pipeline: ReadyPipeline,
    batches: Vec<DrawBatch>,
    overlays: Vec<OverlayPass>,
    stream: Option<CommandStream>,
    recreating: Option<RecreatePlan>,
}

impl View for Renderer {
    type V = RendererState;

    closed spec fn view(&self) -> RendererState {
        RendererState {
            presenter: self.presenter@,
            swapchain: self.swapchain,
            layout: self.layout,
            framebuffers: self.framebuffers@,
            pipeline: self.pipeline,
            batches: self.batches@,
            overlays: self.overlays@,
            stream: match self.stream {
                Some(stream) => Some(stream@),
                None => None,
            },
            recreating: self.recreating,
        }
    }
}

impl Renderer {
    /// The engine's invariant, and that the frame's stream is single-use and
    /// not yet noted as submitted.
    pub closed spec fn wf(&self) -> bool {
        &&& self@.wf()
        &&& match self.stream {
            Some(stream) => stream.usage() == CommandBufferUsage::OneTimeSubmit && (
            stream.submitted() <==> self.presenter@.phase is PresentRequested),
            None => true,
        }
    }

    /// An engine over the chain `swapchain`, drawing with `pipeline`: the
    /// targets are built for the primary pass, with one shared depth buffer.
    pub fn new(swapchain: Swapchain, pipeline: ReadyPipeline) -> (renderer: Renderer)
        ensures
            renderer@ == RendererState::initial(swapchain, pipeline),
            renderer.wf(),
    {
        let layout = render_pass_with_depth(Some(&swapchain));
        let images = swapchain.image_list();
        let framebuffers = build_targets(&images, layout, None);
        Renderer {
            presenter: Presenter::new(swapchain.image_count),
            swapchain,
            layout,
            framebuffers,
            pipeline,
            batches: Vec::new(),
            overlays: Vec::new(),
            stream: None,
            recreating: None,
        }
    }

    /// The presenter.
    pub fn presenter(&self) -> (presenter: &Presenter)
        ensures
            presenter@ == self@.presenter,
    {
        &self.presenter
    }

    /// The chain in force.
    pub fn swapchain(&self) -> (swapchain: Swapchain)
        ensures
            swapchain == self@.swapchain,
    {
        self.swapchain
    }

    /// The targets, one per image of the chain in force.
    pub fn framebuffers(&self) -> (framebuffers: &Vec<FrameTarget>)
        ensures
            framebuffers@ == self@.framebuffers,
    {
        &self.framebuffers
    }

    /// The pipeline in force.
    pub fn pipeline(&self) -> (pipeline: ReadyPipeline)
        ensures
            pipeline == self@.pipeline,
    {
        self.pipeline
    }

    /// The stream composed for the frame under way: there is one from the
    /// submission to the frame's end.
    pub fn command_buffer(&self) -> (stream: Option<&CommandStream>)
        ensures
            match stream {
                Some(stream) => self@.stream == Some(stream@),
                None => self@.stream is None,
            },
    {
        self.stream.as_ref()
    }

    /// The rotation step of the frame under way, or of the next one.
    pub fn frame_index(&self) -> (index: usize)
        ensures
            index == self@.presenter.rotation,
    {
        self.presenter.rotation()
    }

    /// Whether no frame and no rebuild is under way.
    pub fn is_idle(&self) -> (idle: bool)
        ensures
            idle == self@.idle(),
    {
        let resting = match self.presenter.phase() {
            Phase::Idle => true,
            _ => false,
        };
        self.recreating.is_none() && resting
    }

    /// Registers a draw for the next frame. A batch that reads no indices is
    /// refused whatever else holds; between frames any other batch is taken,
    /// after those registered before it.
    pub fn add_batch(&mut self, batch: DrawBatch) -> (r: Result<(), FrameError>)
        requires
            old(self).wf(),
        ensures
            final(self).wf(),
            match r {
                Ok(()) => batch.index_count > 0 && old(self)@.idle() && final(self)@ == (
                RendererState { batches: old(self)@.batches.push(batch), ..old(self)@ }),
                Err(e) => final(self)@ == old(self)@ && e == (if batch.index_count == 0 {
                    FrameError::Compose(
                        ComposeError::EmptyBatch { index: old(self)@.batches.len() as usize },
                    )
                } else {
                    FrameError::FrameInProgress
                }) && (batch.index_count == 0 || !old(self)@.idle()),
            },
    {
        if batch.index_count == 0 {
            return Err(FrameError::Compose(ComposeError::EmptyBatch { index: self.batches.len() }));
        }
        if !self.is_idle() {
            return Err(FrameError::FrameInProgress);
        }
        self.batches.push(batch);
        Ok(())
    }

    /// Registers an overlay for the next frame. An overlay that would clear
    /// its attachment is refused whatever else holds; between frames any
    /// other overlay is taken, after those registered before it.
    pub fn add_overlay(&mut self, overlay: OverlayPass) -> (r: Result<(), FrameError>)
        requires
            old(self).wf(),
        ensures
            final(self).wf(),
            match r {
                Ok(()) => overlay.clear == ClearPolicy::Load && old(self)@.idle() && final(self)@
                    == (RendererState {
                    overlays: old(self)@.overlays.push(overlay),
                    ..old(self)@
                }),
                Err(e) => final(self)@ == old(self)@ && e == (if overlay.clear
                    != ClearPolicy::Load {
                    FrameError::Compose(ComposeError::OverlayClears)
                } else {
                    FrameError::FrameInProgress
                }) && (overlay.clear != ClearPolicy::Load || !old(self)@.idle()),
            },
    {
        match overlay.clear {
            ClearPolicy::Load => {},
            ClearPolicy::Clear => {
                return Err(FrameError::Compose(ComposeError::OverlayClears));
            },
        }
        if !self.is_idle() {
            return Err(FrameError::FrameInProgress);
        }
        self.overlays.push(overlay);
        Ok(())
    }

    /// Starts a frame for a window of size `extent`; `resize_requested` tells
    /// that the window has changed size since the last frame. The transition
    /// is exactly [`RendererState::begin`].
    pub fn new_frame(&mut self, extent: Extent, resize_requested: bool) -> (r: Result<
        FrameAction,
        FrameError,
    >)
        requires
            old(self).wf(),
        ensures
            final(self)@ == old(self)@.begin(extent, resize_requested).0,
            r == old(self)@.begin(extent, resize_requested).1,
            final(self).wf(),
    {
        if !self.is_idle() {
            return Err(FrameError::FrameInProgress);
        }
        if resize_requested {
            self.presenter.notify_resize();
        }
        match self.presenter.recreate(extent) {
            Some(plan) => {
                let info = match self.swapchain.recreate_info(extent) {
                    Ok(info) => info,
                    Err(_) => {
                        // Never taken: a plan is made for non-zero extents only.
                        proof {
                            assert(false);
                        }
                        return Err(FrameError::SurfaceLost);
                    },
                };
                self.recreating = Some(plan);
                Ok(FrameAction::Recreate { info, plan })
            },
            None => match self.presenter.present(PresentEvent::FrameRequested) {
                Ok(action) => Ok(FrameAction::Device(action)),
                Err(e) => Err(FrameError::Present(e)),
            },
        }
    }

    /// Takes the outcome of the last action and answers with the next one.
    /// The transition is exactly [`RendererState::step`].
    pub fn update(&mut self, event: FrameEvent) -> (r: Result<FrameAction, FrameError>)
        requires
            old(self).wf(),
        ensures
            final(self)@ == old(self)@.step(event).0,
            r == old(self)@.step(event).1,
            final(self).wf(),
    {
        match event {
            FrameEvent::Recreated { image_count, pipeline } => match self.recreating {
                Some(plan) => {
                    let (chain, images) = match self.swapchain.recreate(plan.extent, image_count) {
                        Ok(rebuilt) => rebuilt,
                        Err(_) => {
                            // Never taken: a plan is made for non-zero extents only.
                            proof {
                                assert(false);
                            }
                            return Err(FrameError::SurfaceLost);
                        },
                    };
                    self.swapchain = chain;
                    self.framebuffers = build_targets(&images, self.layout, None);
                    self.presenter.resize(image_count);
                    if plan.viewport {
                        self.pipeline.rebuild_viewport(pipeline, plan.extent);
                    }
                    self.recreating = None;
                    match self.presenter.present(PresentEvent::FrameRequested) {
                        Ok(action) => Ok(FrameAction::Device(action)),
                        Err(e) => Err(FrameError::Present(e)),
                    }
                },
                None => Err(FrameError::Present(PresentError::UnexpectedEvent)),
            },
            FrameEvent::RecreateFailed => match self.recreating {
                Some(_) => {
                    self.recreating = None;
                    self.end_frame();
                    Err(FrameError::SurfaceLost)
                },
                None => Err(FrameError::Present(PresentError::UnexpectedEvent)),
            },
            FrameEvent::Device(e) => {
                if self.recreating.is_some() {
                    return Err(FrameError::Present(PresentError::UnexpectedEvent));
                }
                match e {
                    PresentEvent::FrameRequested => {
                        return Err(FrameError::Present(PresentError::UnexpectedEvent));
                    },
                    _ => {},
                }
                proof {
                    lemma_step_wf(self.presenter@, e);
                }
                match self.presenter.present(e) {
                    Ok(PresentAction::Submit { image, after, signal }) => {
                        let overlay = pick_overlay(&self.overlays, &self.framebuffers[image]);
                        match compose(
                            &self.framebuffers[image],
                            &self.pipeline,
                            &self.batches,
                            overlay,
                        ) {
                            Ok(stream) => {
                                self.stream = Some(stream);
                                Ok(
                                    FrameAction::Device(
                                        PresentAction::Submit { image, after, signal },
                                    ),
                                )
                            },
                            Err(e) => {
                                // Never taken: registered work always composes.
                                proof {
                                    lemma_compose_succeeds(
                                        self.framebuffers@[image as int],
                                        self.pipeline,
                                        self.batches@,
                                        overlay,
                                        Err(e),
                                    );
                                    assert(false);
                                }
                                Err(FrameError::Compose(e))
                            },
                        }
                    },
                    Ok(PresentAction::Present { image, signal }) => {
                        self.note_submission();
                        Ok(FrameAction::Device(PresentAction::Present { image, signal }))
                    },
                    Ok(PresentAction::FrameDone) => {
                        self.end_frame();
                        Ok(FrameAction::Device(PresentAction::FrameDone))
                    },
                    Ok(PresentAction::FrameDropped) => {
                        self.end_frame();
                        Ok(FrameAction::Device(PresentAction::FrameDropped))
                    },
                    Ok(action) => Ok(FrameAction::Device(action)),
                    Err(PresentError::DeviceLost) => {
                        self.end_frame();
                        Err(FrameError::Present(PresentError::DeviceLost))
                    },
                    Err(e) => Err(FrameError::Present(e)),
                }
            },
        }
    }

    /// Records the registered draw work, batch after batch, into `builder`,
    /// which must be inside a pass with inline contents.
    pub fn append_mesh_sec_renderpass_to_builder(&self, builder: &mut VkBuilder) -> (r: Result<
        (),
        ComposeError,
    >)
        requires
            self.wf(),
        ensures
            match r {
                Ok(()) => old(builder)@.pass == Some(SubpassContents::Inline)
                    && final(builder)@.ops == old(builder)@.ops + draw_ops(self@.batches)
                    && final(builder)@.pass == old(builder)@.pass && final(builder)@.usage == old(
                    builder,
                )@.usage && final(builder)@.level == old(builder)@.level,
                Err(e) => old(builder)@.pass != Some(SubpassContents::Inline) && e
                    == ComposeError::Record(RecordError::NotInPass) && final(builder)@ == old(
                    builder,
                )@,
            },
    {
        let r = record_batches(builder, &self.batches);
        proof {
            if let Err(ComposeError::EmptyBatch { index }) = r {
                assert(self@.batches[index as int].index_count > 0);
            }
        }
        r
    }

    /// Records the overlay registered for `target`, if there is one, into
    /// `builder`, which must be outside any pass.
    pub fn append_sec_renderpasses_to_builder(
        &self,
        builder: &mut VkBuilder,
        target: &FrameTarget,
    ) -> (r: Result<(), ComposeError>)
        ensures
            match r {
                Ok(()) => (old(builder)@.pass is None || overlay_for(self@.overlays, *target)
                    is None) && final(builder)@.ops == old(builder)@.ops + overlay_ops(
                    overlay_for(self@.overlays, *target),
                ) && final(builder)@.pass == old(builder)@.pass && final(builder)@.usage == old(
                    builder,
                )@.usage && final(builder)@.level == old(builder)@.level,
                Err(e) => old(builder)@.pass is Some && overlay_for(self@.overlays, *target)
                    is Some && e == ComposeError::Record(RecordError::AlreadyInPass)
                    && final(builder)@ == old(builder)@,
            },
    {
        match pick_overlay(&self.overlays, target) {
            Some(pass) => record_overlay(builder, &pass),
            None => {
                assert(builder@.ops =~= old(builder)@.ops + overlay_ops(None));
                Ok(())
            },
        }
    }

    /// Composes one single-use stream per target, each from the registered
    /// draw work and the overlay registered for that target.
    pub fn get_command_buffers(&self, framebuffers: &Vec<FrameTarget>) -> (streams: Vec<
        CommandStream,
    >)
        requires
            self.wf(),
        ensures
            streams@.len() == framebuffers@.len(),
            forall|i: int|
                0 <= i < framebuffers@.len() ==> (#[trigger] streams@[i])@ == composed_ops(
                    framebuffers@[i],
                    self@.pipeline,
                    self@.batches,
                    overlay_for(self@.overlays, framebuffers@[i]),
                ) && streams@[i].usage() == CommandBufferUsage::OneTimeSubmit
                    && !streams@[i].submitted(),
    {
        let mut streams: Vec<CommandStream> = Vec::new();
        let mut i: usize = 0;
        while i < framebuffers.len()
            invariant
                i <= framebuffers.len(),
                self.wf(),
                streams@.len() == i,
                forall|k: int|
                    0 <= k < i ==> (#[trigger] streams@[k])@ == composed_ops(
                        framebuffers@[k],
                        self@.pipeline,
                        self@.batches,
                        overlay_for(self@.overlays, framebuffers@[k]),
                    ) && streams@[k].usage() == CommandBufferUsage::OneTimeSubmit
                        && !streams@[k].submitted(),
            decreases framebuffers.len() - i,
        {
            let overlay = pick_overlay(&self.overlays, &framebuffers[i]);
            match compose(&framebuffers[i], &self.pipeline, &self.batches, overlay) {
                Ok(stream) => {
                    streams.push(stream);
                },
                Err(e) => {
                    // Never taken: registered work always composes.
                    proof {
                        lemma_compose_succeeds(
                            framebuffers@[i as int],
                            self.pipeline,
                            self.batches@,
                            overlay,
                            Err(e),
                        );
                        assert(false);
                    }
                },
            }
            i = i + 1;
        }
        streams
    }

    /// Discards the frame's draw work, overlays and stream.
    fn end_frame(&mut self)
        ensures
            final(self)@ == old(self)@.ended(),
            final(self).stream is None,
    {
        self.batches.clear();
        self.overlays.clear();
        self.stream = None;
    }

    /// Notes on the frame's stream that the queue took it.
    fn note_submission(&mut self)
        requires
            old(self).stream matches Some(stream) && stream.submittable(),
        ensures
            final(self)@ == old(self)@,
            final(self).stream matches Some(stream) && stream.submitted() && stream.usage() == old(
                self,
            ).stream->0.usage(),
    {
        let mut taken: Option<CommandStream> = None;
        std::mem::swap(&mut self.stream, &mut taken);
        match taken {
            Some(mut stream) => {
                match stream.mark_submitted() {
                    Ok(()) => {},
                    Err(_) => {},
                }
                self.stream = Some(stream);
            },
            None => {},
        }
    }
}

/// Every transition of the engine keeps its invariant.
pub proof fn lemma_engine_wf(
    s: RendererState,
    extent: Extent,
    resize_requested: bool,
    event: FrameEvent,
)
    requires
        s.wf(),
    ensures
        s.begin(extent, resize_requested).0.wf(),
        s.step(event).0.wf(),
        s.begin(extent, resize_requested).0.presenter.slots.len() == s.begin(
            extent,
            resize_requested,
        ).0.swapchain.image_count,
        s.step(event).0.presenter.slots.len() == s.step(event).0.swapchain.image_count,
{
    match event {
        FrameEvent::Device(e) => {
            lemma_step_wf(s.presenter, e);
        },
        _ => {},
    }
}

/// A resize is served before anything is composed. Between frames, a frame
/// started with a resize request for a window of non-zero size answers with
/// the rebuild of chain, targets and viewport, in that order, and composes
/// nothing; when the rebuild comes back the targets are those of the new
/// chain, one per image, the viewport has the new extent, both flags are
/// down, and the next image is asked for.
pub proof fn lemma_resize_rebuilds_first(
    s: RendererState,
    extent: Extent,
    image_count: usize,
    pipeline: u64,
)
    requires
        s.wf(),
        s.idle(),
        extent.nonzero(),
    ensures
        s.begin(extent, true).1 matches Ok(FrameAction::Recreate { info, plan }) && {
            &&& info == s.swapchain.recreated(extent, 0).info
            &&& plan.step_seq() == seq![
                RecreateStep::Swapchain,
                RecreateStep::Targets,
                RecreateStep::Viewport,
            ]
            &&& s.begin(extent, true).0.stream is None
            &&& s.begin(extent, true).0.step(FrameEvent::Recreated { image_count, pipeline }).1
                == Ok::<FrameAction, FrameError>(FrameAction::Device(PresentAction::AcquireImage))
        },
        ({
            let after = s.begin(extent, true).0.step(
                FrameEvent::Recreated { image_count, pipeline },
            ).0;
            &&& after.swapchain == s.swapchain.recreated(extent, image_count)
            &&& after.framebuffers == targets_for(after.swapchain.images(), s.layout, None)
            &&& after.framebuffers.len() == image_count
            &&& after.presenter.slots.len() == image_count
            &&& after.pipeline.viewport == extent
            &&& after.pipeline.layout == s.pipeline.layout
            &&& !after.presenter.window_resized
            &&& !after.presenter.recreate_swapchain
            &&& after.stream is None
        }),
{
}

/// A stale chain costs the frame and nothing else. When the acquire finds
/// the chain out of date the frame is dropped: nothing is submitted or
/// presented, no stream exists, and the rebuild flag is up, so that the next
/// frame for a window of non-zero size starts with the rebuild of chain and
/// targets.
pub proof fn lemma_out_of_date_drops_frame(s: RendererState, extent: Extent)
    requires
        s.wf(),
        s.recreating is None,
        s.presenter.phase == Phase::Acquiring,
        extent.nonzero(),
    ensures
        s.step(FrameEvent::Device(PresentEvent::OutOfDate)).1 == Ok::<FrameAction, FrameError>(
            FrameAction::Device(PresentAction::FrameDropped),
        ),
        ({
            let after = s.step(FrameEvent::Device(PresentEvent::OutOfDate)).0;
            &&& after.idle()
            &&& after.stream is None
            &&& after.presenter.recreate_swapchain
            &&& after.presenter.slots == s.presenter.slots
            &&& after.presenter.ticket == s.presenter.ticket
            &&& after.presenter.rotation == s.presenter.rotation
            &&& after.begin(extent, false).1 matches Ok(FrameAction::Recreate { plan, .. })
                && plan.viewport == s.presenter.window_resized
        }),
{
}

} // verus!
