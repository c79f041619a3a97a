//! The command stream composer: the fixed recording order of one frame's
//! primary stream.

use vstd::prelude::*;
use crate::command::{
    ClearPolicy,
    CommandBufferLevel,
    CommandBufferUsage,
    CommandStream,
    RecordError,
    RecordedOp,
    passes_begun,
    SubpassContents,
    VkBuilder,
};
use crate::pipeline::ReadyPipeline;
use crate::swapchain::PresentableImage;
use crate::target::{framebuffers, targets_for, FrameTarget, RenderPassLayout, TargetError};

verus! {

/// The set index at which a batch's own resource set is bound. Index 0 holds
/// the per-frame set that comes with the pipeline.
pub const PER_DRAW_SET_INDEX: u32 = 1;

/// One draw call as the scene prepared it. The buffers stay with their owner.
#[derive(Clone, Copy, Debug, PartialEq, Eq)]
pub struct DrawBatch {
    pub vertex_buffer: u64,
    pub instance_buffer: Option<u64>,
    pub index_buffer: u64,
    /// The per-draw resource set.
    pub resource_set: u64,
    /// How many indices the draw reads.
    pub index_count: u32,
    /// How many instances the scene asks for; none counts as one.
    pub instance_count: u32,
}

/// A pre-recorded secondary stream, the target it was recorded against and
/// what beginning its pass does to the attachment.
#[derive(Clone, Copy, Debug, PartialEq, Eq)]
pub struct OverlayPass {
    pub stream: u64,
    pub target: FrameTarget,
    pub clear: ClearPolicy,
}

/// Why a stream was not composed.
#[derive(Clone, Copy, Debug, PartialEq, Eq, Structural)]
pub enum ComposeError {
    /// The batch at `index` reads no indices: its mesh is stale.
    EmptyBatch { index: usize },
    /// The overlay was recorded against another image than the target's.
    OverlayTargetMismatch,
    /// The overlay would clear what the primary pass has drawn.
    OverlayClears,
    /// The builder refused an operation.
    Record(RecordError),
}

impl DrawBatch {
    /// The instance count the draw is issued with: at least one.
    pub open spec fn instances(self) -> u32 {
        if self.instance_count == 0 {
            1
        } else {
            self.instance_count
        }
    }

    /// The operations one batch records: its resource set, its buffers, the draw.
    pub open spec fn ops(self) -> Seq<RecordedOp> {
        seq![
            RecordedOp::BindDescriptorSet { set_index: PER_DRAW_SET_INDEX, set: self.resource_set },
            RecordedOp::BindVertexBuffers {
                vertex: self.vertex_buffer,
                instance: self.instance_buffer,
            },
            RecordedOp::BindIndexBuffer { index: self.index_buffer },
            RecordedOp::DrawIndexed {
                index_count: self.index_count,
                instance_count: self.instances(),
            },
        ]
    }

    /// Records this batch into `builder`, which must be inside a pass with
    /// inline contents. A batch without indices is refused first.
    pub fn build_commands(&self, builder: &mut VkBuilder) -> (r: Result<(), ComposeError>)
        ensures
            match r {
                Ok(()) => self.index_count > 0 && old(builder)@.pass == Some(
                    SubpassContents::Inline,
                ) && final(builder)@.ops == old(builder)@.ops + self.ops() && final(builder)@.pass
                    == old(builder)@.pass && final(builder)@.usage == old(builder)@.usage
                    && final(builder)@.level == old(builder)@.level,
                Err(e) => final(builder)@ == old(builder)@ && e == (if self.index_count == 0 {
                    ComposeError::EmptyBatch { index: 0 }
                } else {
                    ComposeError::Record(RecordError::NotInPass)
                }) && (self.index_count == 0 || old(builder)@.pass != Some(
                    SubpassContents::Inline,
                )),
            },
    {
        if self.index_count == 0 {
            return Err(ComposeError::EmptyBatch { index: 0 });
        }
        let instances: u32 = if self.instance_count == 0 {
            1
        } else {
            self.instance_count
        };
        if !builder.in_inline_pass() {
            return Err(ComposeError::Record(RecordError::NotInPass));
        }
        builder.bind_descriptor_sets(PER_DRAW_SET_INDEX, self.resource_set);
        builder.bind_vertex_buffers(self.vertex_buffer, self.instance_buffer);
        builder.bind_index_buffer(self.index_buffer);
        let drawn = builder.draw_indexed(self.index_count, instances);
        assert(drawn is Ok);
        assert(builder@.ops =~= old(builder)@.ops + self.ops());
        Ok(())
    }
}

impl DrawBatch {
    /// The operations of the batch's own secondary stream: bind the
    /// pipeline, then the batch.
    pub open spec fn secondary_ops(self, pipeline: ReadyPipeline) -> Seq<RecordedOp> {
        seq![
            RecordedOp::BindPipeline {
                pipeline: pipeline.pipeline,
                layout: pipeline.layout,
                frame_set: pipeline.frame_set,
            },
        ] + self.ops()
    }

    /// Records the batch into a secondary stream of its own, to be executed
    /// from inside a pass with inline contents. A batch without indices is
    /// refused.
    pub fn record_command_buffer(&self, pipeline: &ReadyPipeline) -> (r: Result<
        CommandStream,
        ComposeError,
    >)
        ensures
            match r {
                Ok(stream) => self.index_count > 0 && stream@ == self.secondary_ops(*pipeline)
                    && stream.usage() == CommandBufferUsage::SimultaneousUse && stream.level()
                    == CommandBufferLevel::Secondary && !stream.submitted(),
                Err(e) => self.index_count == 0 && e == (ComposeError::EmptyBatch { index: 0 }),
            },
    {
        let mut builder = VkBuilder::new_secondary(Some(SubpassContents::Inline));
        builder.bind_pipeline_graphics(pipeline.pipeline, pipeline.layout, pipeline.frame_set);
        match self.build_commands(&mut builder) {
            Ok(()) => {},
            Err(e) => {
                return Err(e);
            },
        }
        assert(builder@.ops =~= self.secondary_ops(*pipeline));
        let sealed = builder.command_buffer();
        assert(sealed is Ok);
        sealed.map_err(|e: RecordError| ComposeError::Record(e))
    }
}

/// The operations that `batches` record, batch after batch in the order given.
pub open spec fn draw_ops(batches: Seq<DrawBatch>) -> Seq<RecordedOp>
    decreases batches.len(),
{
    if batches.len() == 0 {
        Seq::empty()
    } else {
        draw_ops(batches.drop_last()) + batches.last().ops()
    }
}

/// The operations of the overlay pass: begin without clearing, execute the
/// pre-recorded stream, end. None where there is no overlay.
pub open spec fn overlay_ops(overlay: Option<OverlayPass>) -> Seq<RecordedOp> {
    match overlay {
        None => Seq::empty(),
        Some(pass) => seq![
            RecordedOp::BeginRenderPass {
                target: pass.target,
                clear: ClearPolicy::Load,
                contents: SubpassContents::SecondaryCommandBuffers,
            },
            RecordedOp::ExecuteCommands { stream: pass.stream },
            RecordedOp::EndRenderPass,
        ],
    }
}

/// The operations of a frame's primary stream, in recording order: begin the
/// primary pass with clear, bind the pipeline, every batch, end the pass,
/// then the overlay pass.
pub open spec fn composed_ops(
    target: FrameTarget,
    pipeline: ReadyPipeline,
    batches: Seq<DrawBatch>,
    overlay: Option<OverlayPass>,
) -> Seq<RecordedOp> {
    seq![
        RecordedOp::BeginRenderPass {
            target,
            clear: ClearPolicy::Clear,
            contents: SubpassContents::Inline,
        },
        RecordedOp::BindPipeline {
            pipeline: pipeline.pipeline,
            layout: pipeline.layout,
            frame_set: pipeline.frame_set,
        },
    ] + draw_ops(batches) + seq![RecordedOp::EndRenderPass] + overlay_ops(overlay)
}

/// Every batch reads at least one index.
pub open spec fn all_drawable(batches: Seq<DrawBatch>) -> bool {
    forall|i: int| 0 <= i < batches.len() ==> (#[trigger] batches[i]).index_count > 0
}

/// `index` is the position of the first batch that reads no indices.
pub open spec fn first_empty_batch(batches: Seq<DrawBatch>, index: int) -> bool {
    &&& 0 <= index < batches.len()
    &&& batches[index].index_count == 0
    &&& forall|j: int| 0 <= j < index ==> (#[trigger] batches[j]).index_count > 0
}

/// The overlay loads the very image that `target` draws to.
pub open spec fn overlay_fits(target: FrameTarget, overlay: Option<OverlayPass>) -> bool {
    match overlay {
        None => true,
        Some(pass) => pass.target.image == target.image && pass.clear == ClearPolicy::Load,
    }
}

/// `index` is the position of the first overlay recorded against the image
/// that `target` draws to.
pub open spec fn first_overlay_for(overlays: Seq<OverlayPass>, target: FrameTarget, index: int) -> bool {
    &&& 0 <= index < overlays.len()
    &&& overlays[index].target.image == target.image
    &&& forall|j: int| 0 <= j < index ==> (#[trigger] overlays[j]).target.image != target.image
}

/// The overlay among `overlays` that goes on top of `target`: the first one
/// recorded against the target's image, if there is one.
pub open spec fn overlay_for(overlays: Seq<OverlayPass>, target: FrameTarget) -> Option<
    OverlayPass,
> {
    if exists|i: int| first_overlay_for(overlays, target, i) {
        Some(overlays[choose|i: int| first_overlay_for(overlays, target, i)])
    } else {
        None
    }
}

/// Every overlay keeps what the attachment holds.
pub open spec fn all_loading(overlays: Seq<OverlayPass>) -> bool {
    forall|i: int| 0 <= i < overlays.len() ==> (#[trigger] overlays[i]).clear == ClearPolicy::Load
}

/// Picks the overlay that goes on top of `target`.
pub fn pick_overlay(overlays: &Vec<OverlayPass>, target: &FrameTarget) -> (picked: Option<
    OverlayPass,
>)
    ensures
        picked == overlay_for(overlays@, *target),
        picked matches Some(pass) ==> pass.target.image == target.image && exists|i: int|
            0 <= i < overlays@.len() && overlays@[i] == pass,
{
    let mut i: usize = 0;
    while i < overlays.len()
        invariant
            i <= overlays.len(),
            forall|j: int| 0 <= j < i ==> (#[trigger] overlays@[j]).target.image != target.image,
        decreases overlays.len() - i,
    {
        if overlays[i].target.image == target.image {
            proof {
                assert(first_overlay_for(overlays@, *target, i as int));
                let c = choose|c: int| first_overlay_for(overlays@, *target, c);
                if c < i {
                    assert(overlays@[c].target.image != target.image);
                }
                if i < c {
                    assert(overlays@[i as int].target.image != target.image);
                }
            }
            return Some(overlays[i]);
        }
        i = i + 1;
    }
    proof {
        if exists|c: int| first_overlay_for(overlays@, *target, c) {
            let c = choose|c: int| first_overlay_for(overlays@, *target, c);
            assert(overlays@[c].target.image != target.image);
        }
    }
    None
}

/// The overlay passes over `targets`: one for each target whose secondary
/// stream was recorded, in the order of the targets, each loading what its
/// target holds.
pub open spec fn renderpasses(targets: Seq<FrameTarget>, streams: Seq<Option<u64>>) -> Seq<
    OverlayPass,
>
    decreases targets.len(),
{
    if targets.len() == 0 {
        Seq::empty()
    } else {
        let front = renderpasses(targets.drop_last(), streams);
        let i = targets.len() - 1;
        if i < streams.len() && streams[i] is Some {
            front.push(
                OverlayPass { stream: streams[i]->0, target: targets.last(), clear: ClearPolicy::Load },
            )
        } else {
            front
        }
    }
}

/// Describes the overlay passes for an image set: colour-only targets are
/// built over the images for the overlay's layout, and each target whose
/// secondary stream was recorded, `streams` holding it at the image's
/// position, gets a pass. A layout with depth is refused.
pub fn get_renderpasses(
    target_images: &Vec<PresentableImage>,
    layout: RenderPassLayout,
    streams: &Vec<Option<u64>>,
) -> (r: Result<Vec<OverlayPass>, TargetError>)
    ensures
        match r {
            Ok(passes) => layout.depth_format is None && passes@ == renderpasses(
                targets_for(target_images@, layout, None),
                streams@,
            ),
            Err(e) => layout.depth_format is Some && e == TargetError::AttachmentMismatch,
        },
{
    let targets = match framebuffers(layout, target_images) {
        Ok(targets) => targets,
        Err(e) => {
            return Err(e);
        },
    };
    let mut passes: Vec<OverlayPass> = Vec::new();
    let mut i: usize = 0;
    assert(targets@.take(0) =~= Seq::<FrameTarget>::empty());
    while i < targets.len()
        invariant
            i <= targets.len(),
            passes@ == renderpasses(targets@.take(i as int), streams@),
        decreases targets.len() - i,
    {
        assert(targets@.take(i as int + 1).drop_last() =~= targets@.take(i as int));
        assert(targets@.take(i as int + 1).last() == targets@[i as int]);
        if i < streams.len() {
            match streams[i] {
                Some(stream) => {
                    passes.push(
                        OverlayPass { stream, target: targets[i], clear: ClearPolicy::Load },
                    );
                },
                None => {},
            }
        }
        i = i + 1;
    }
    assert(targets@.take(i as int) =~= targets@);
    Ok(passes)
}

/// What composing answers: the first batch without indices is reported
/// before anything else, then an overlay for another image, then an overlay
/// that clears; otherwise the stream is composed.
pub open spec fn compose_outcome(
    target: FrameTarget,
    pipeline: ReadyPipeline,
    batches: Seq<DrawBatch>,
    overlay: Option<OverlayPass>,
    r: Result<Seq<RecordedOp>, ComposeError>,
) -> bool {
    match r {
        Ok(ops) => all_drawable(batches) && overlay_fits(target, overlay) && ops == composed_ops(
            target,
            pipeline,
            batches,
            overlay,
        ),
        Err(ComposeError::EmptyBatch { index }) => first_empty_batch(batches, index as int),
        Err(ComposeError::OverlayTargetMismatch) => all_drawable(batches) && overlay is Some
            && overlay->0.target.image != target.image,
        Err(ComposeError::OverlayClears) => all_drawable(batches) && overlay is Some
            && overlay->0.target.image == target.image && overlay->0.clear != ClearPolicy::Load,
        Err(ComposeError::Record(_)) => false,
    }
}

/// Finds the first batch that reads no indices.
pub fn find_empty_batch(batches: &Vec<DrawBatch>) -> (found: Option<usize>)
    ensures
        match found {
            Some(index) => first_empty_batch(batches@, index as int),
            None => all_drawable(batches@),
        },
{
    let mut i: usize = 0;
    while i < batches.len()
        invariant
            i <= batches.len(),
            forall|j: int| 0 <= j < i ==> (#[trigger] batches@[j]).index_count > 0,
        decreases batches.len() - i,
    {
        if batches[i].index_count == 0 {
            return Some(i);
        }
        i = i + 1;
    }
    None
}

/// Records every batch, in the order given, into `builder`, which must be
/// inside a pass with inline contents. Where a batch reads no indices
/// nothing is recorded.
pub fn record_batches(builder: &mut VkBuilder, batches: &Vec<DrawBatch>) -> (r: Result<
    (),
    ComposeError,
>)
    ensures
        match r {
            Ok(()) => all_drawable(batches@) && old(builder)@.pass == Some(SubpassContents::Inline)
                && final(builder)@.ops == old(builder)@.ops + draw_ops(batches@)
                && final(builder)@.pass == old(builder)@.pass && final(builder)@.usage == old(
                builder,
            )@.usage && final(builder)@.level == old(builder)@.level,
            Err(ComposeError::EmptyBatch { index }) => first_empty_batch(batches@, index as int)
                && final(builder)@ == old(builder)@,
            Err(ComposeError::Record(e)) => all_drawable(batches@) && old(builder)@.pass != Some(
                SubpassContents::Inline,
            ) && e == RecordError::NotInPass && final(builder)@ == old(builder)@,
            Err(_) => false,
        },
{
    match find_empty_batch(batches) {
        Some(index) => {
            return Err(ComposeError::EmptyBatch { index });
        },
        None => {},
    }
    if !builder.in_inline_pass() {
        return Err(ComposeError::Record(RecordError::NotInPass));
    }
    let mut i: usize = 0;
    assert(batches@.take(0) =~= Seq::<DrawBatch>::empty());
    assert(builder@.ops =~= old(builder)@.ops + draw_ops(batches@.take(0)));
    while i < batches.len()
        invariant
            i <= batches.len(),
            all_drawable(batches@),
            builder@.pass == Some(SubpassContents::Inline),
            builder@.pass == old(builder)@.pass,
            builder@.usage == old(builder)@.usage,
            builder@.level == old(builder)@.level,
            builder@.ops == old(builder)@.ops + draw_ops(batches@.take(i as int)),
        decreases batches.len() - i,
    {
        let ghost before = builder@.ops;
        let recorded = batches[i].build_commands(builder);
        assert(recorded is Ok);
        proof {
            lemma_draw_ops_step(batches@, i as int);
            assert(builder@.ops =~= old(builder)@.ops + draw_ops(batches@.take(i as int + 1)));
        }
        i = i + 1;
    }
    assert(batches@.take(i as int) =~= batches@);
    Ok(())
}

/// Records the overlay pass into `builder`, which must be outside any pass:
/// begin on the overlay's target without clearing, execute its stream, end.
pub fn record_overlay(builder: &mut VkBuilder, overlay: &OverlayPass) -> (r: Result<
    (),
    ComposeError,
>)
    ensures
        match r {
            Ok(()) => old(builder)@.pass is None && final(builder)@.ops == old(builder)@.ops
                + overlay_ops(Some(*overlay)) && final(builder)@.pass is None
                && final(builder)@.usage == old(builder)@.usage && final(builder)@.level == old(
                builder,
            )@.level,
            Err(e) => old(builder)@.pass is Some && e == ComposeError::Record(
                RecordError::AlreadyInPass,
            ) && final(builder)@ == old(builder)@,
        },
{
    match builder.begin_render_pass(
        overlay.target,
        ClearPolicy::Load,
        SubpassContents::SecondaryCommandBuffers,
    ) {
        Ok(()) => {},
        Err(e) => {
            return Err(ComposeError::Record(e));
        },
    }
    let executed = builder.execute_commands(overlay.stream);
    assert(executed is Ok);
    let ended = builder.end_render_pass();
    assert(ended is Ok);
    assert(builder@.ops =~= old(builder)@.ops + overlay_ops(Some(*overlay)));
    Ok(())
}

/// Composes the primary stream of one frame for `target`: a single-use
/// stream holding exactly [`composed_ops`]. Nothing is composed where a
/// batch reads no indices or the overlay does not fit the target.
pub fn compose(
    target: &FrameTarget,
    pipeline: &ReadyPipeline,
    batches: &Vec<DrawBatch>,
    overlay: Option<OverlayPass>,
) -> (r: Result<CommandStream, ComposeError>)
    ensures
        compose_outcome(
            *target,
            *pipeline,
            batches@,
            overlay,
            match r {
                Ok(stream) => Ok(stream@),
                Err(e) => Err(e),
            },
        ),
        r matches Ok(stream) ==> stream.usage() == CommandBufferUsage::OneTimeSubmit
            && stream.level() == CommandBufferLevel::Primary && !stream.submitted(),
{
    match find_empty_batch(batches) {
        Some(index) => {
            return Err(ComposeError::EmptyBatch { index });
        },
        None => {},
    }
    match overlay {
        Some(pass) => {
            if pass.target.image != target.image {
                return Err(ComposeError::OverlayTargetMismatch);
            }
            match pass.clear {
                ClearPolicy::Load => {},
                ClearPolicy::Clear => {
                    return Err(ComposeError::OverlayClears);
                },
            }
        },
        None => {},
    }
    let mut builder = VkBuilder::new_once();
    let begun = builder.begin_render_pass(*target, ClearPolicy::Clear, SubpassContents::Inline);
    assert(begun is Ok);
    builder.bind_pipeline_graphics(pipeline.pipeline, pipeline.layout, pipeline.frame_set);
    let drawn = record_batches(&mut builder, batches);
    assert(drawn is Ok);
    let ended = builder.end_render_pass();
    assert(ended is Ok);
    match overlay {
        Some(pass) => {
            let laid = record_overlay(&mut builder, &pass);
            assert(laid is Ok);
        },
        None => {},
    }
    assert(builder@.ops =~= composed_ops(*target, *pipeline, batches@, overlay));
    let sealed = builder.command_buffer();
    assert(sealed is Ok);
    sealed.map_err(|e: RecordError| ComposeError::Record(e))
}

/// Recording one more batch appends that batch's operations.
pub proof fn lemma_draw_ops_step(batches: Seq<DrawBatch>, i: int)
    requires
        0 <= i < batches.len(),
    ensures
        draw_ops(batches.take(i + 1)) == draw_ops(batches.take(i)) + batches[i].ops(),
{
    assert(batches.take(i + 1).drop_last() =~= batches.take(i));
    assert(batches.take(i + 1).last() == batches[i]);
}

/// The passes that two runs of operations begin add up.
pub proof fn lemma_passes_begun_concat(
    a: Seq<RecordedOp>,
    b: Seq<RecordedOp>,
    contents: SubpassContents,
)
    ensures
        passes_begun(a + b, contents) == passes_begun(a, contents) + passes_begun(b, contents),
    decreases b.len(),
{
    if b.len() == 0 {
        assert(a + b =~= a);
    } else {
        assert((a + b).drop_last() =~= a + b.drop_last());
        assert((a + b).last() == b.last());
        lemma_passes_begun_concat(a, b.drop_last(), contents);
    }
}

/// Recording batches begins no pass and adds four operations per batch.
pub proof fn lemma_draw_ops_shape(batches: Seq<DrawBatch>, contents: SubpassContents)
    ensures
        passes_begun(draw_ops(batches), contents) == 0,
        draw_ops(batches).len() == 4 * batches.len(),
        forall|i: int|
            0 <= i < batches.len() ==> draw_ops(batches).subrange(4 * i, 4 * i + 4)
                == (#[trigger] batches[i]).ops(),
    decreases batches.len(),
{
    if batches.len() > 0 {
        let front = batches.drop_last();
        let last = batches.last();
        lemma_draw_ops_shape(front, contents);
        lemma_passes_begun_concat(draw_ops(front), last.ops(), contents);
        reveal_with_fuel(passes_begun, 5);
        assert(passes_begun(last.ops(), contents) == 0) by {
            let ops = last.ops();
            assert(ops.drop_last().drop_last().drop_last().drop_last() =~= Seq::<
                RecordedOp,
            >::empty());
        }
        assert forall|i: int| 0 <= i < batches.len() implies draw_ops(batches).subrange(
            4 * i,
            4 * i + 4,
        ) == (#[trigger] batches[i]).ops() by {
            if i < front.len() {
                assert(batches[i] == front[i]);
                assert(draw_ops(batches).subrange(4 * i, 4 * i + 4) =~= draw_ops(front).subrange(
                    4 * i,
                    4 * i + 4,
                ));
            } else {
                assert(draw_ops(batches).subrange(4 * i, 4 * i + 4) =~= last.ops());
            }
        }
    }
}

/// A composed stream begins exactly one primary pass, and one pass of
/// secondary streams exactly where there is an overlay. Its first operation
/// begins the primary pass on the target with clear, its second binds the
/// pipeline, the batches follow in the order given with four operations
/// each, and the primary pass ends right after the last batch.
pub proof fn lemma_composed_shape(
    target: FrameTarget,
    pipeline: ReadyPipeline,
    batches: Seq<DrawBatch>,
    overlay: Option<OverlayPass>,
)
    ensures
        passes_begun(
            composed_ops(target, pipeline, batches, overlay),
            SubpassContents::Inline,
        ) == 1,
        passes_begun(
            composed_ops(target, pipeline, batches, overlay),
            SubpassContents::SecondaryCommandBuffers,
        ) == (if overlay is Some {
            1nat
        } else {
            0nat
        }),
        composed_ops(target, pipeline, batches, overlay).len() == 3 + 4 * batches.len() + (
        if overlay is Some {
            3nat
        } else {
            0nat
        }),
        composed_ops(target, pipeline, batches, overlay)[0] == (RecordedOp::BeginRenderPass {
            target,
            clear: ClearPolicy::Clear,
            contents: SubpassContents::Inline,
        }),
        composed_ops(target, pipeline, batches, overlay)[1] == (RecordedOp::BindPipeline {
            pipeline: pipeline.pipeline,
            layout: pipeline.layout,
            frame_set: pipeline.frame_set,
        }),
        forall|i: int|
            0 <= i < batches.len() ==> composed_ops(target, pipeline, batches, overlay).subrange(
                2 + 4 * i,
                2 + 4 * i + 4,
            ) == (#[trigger] batches[i]).ops(),
        composed_ops(target, pipeline, batches, overlay)[2 + 4 * (batches.len() as int)]
            == RecordedOp::EndRenderPass,
        composed_ops(target, pipeline, batches, overlay).subrange(
            3 + 4 * (batches.len() as int),
            composed_ops(target, pipeline, batches, overlay).len() as int,
        ) == overlay_ops(overlay),
{
    let head = seq![
        RecordedOp::BeginRenderPass {
            target,
            clear: ClearPolicy::Clear,
            contents: SubpassContents::Inline,
        },
        RecordedOp::BindPipeline {
            pipeline: pipeline.pipeline,
            layout: pipeline.layout,
            frame_set: pipeline.frame_set,
        },
    ];
    let draws = draw_ops(batches);
    let end = seq![RecordedOp::EndRenderPass];
    let over = overlay_ops(overlay);
    let all = composed_ops(target, pipeline, batches, overlay);
    assert(all == head + draws + end + over);
    lemma_draw_ops_shape(batches, SubpassContents::Inline);
    lemma_draw_ops_shape(batches, SubpassContents::SecondaryCommandBuffers);
    lemma_passes_begun_concat(head + draws + end, over, SubpassContents::Inline);
    lemma_passes_begun_concat(head + draws, end, SubpassContents::Inline);
    lemma_passes_begun_concat(head, draws, SubpassContents::Inline);
    lemma_passes_begun_concat(head + draws + end, over, SubpassContents::SecondaryCommandBuffers);
    lemma_passes_begun_concat(head + draws, end, SubpassContents::SecondaryCommandBuffers);
    lemma_passes_begun_concat(head, draws, SubpassContents::SecondaryCommandBuffers);
    reveal_with_fuel(passes_begun, 4);
    assert(head.drop_last().drop_last() =~= Seq::<RecordedOp>::empty());
    assert(end.drop_last() =~= Seq::<RecordedOp>::empty());
    assert(passes_begun(head, SubpassContents::Inline) == 1);
    assert(passes_begun(head, SubpassContents::SecondaryCommandBuffers) == 0);
    assert(passes_begun(end, SubpassContents::Inline) == 0);
    assert(passes_begun(end, SubpassContents::SecondaryCommandBuffers) == 0);
    match overlay {
        None => {
            assert(passes_begun(over, SubpassContents::Inline) == 0);
            assert(passes_begun(over, SubpassContents::SecondaryCommandBuffers) == 0);
        },
        Some(pass) => {
            assert(over.drop_last().drop_last().drop_last() =~= Seq::<RecordedOp>::empty());
            assert(passes_begun(over, SubpassContents::Inline) == 0);
            assert(passes_begun(over, SubpassContents::SecondaryCommandBuffers) == 1);
        },
    }
    assert forall|i: int| 0 <= i < batches.len() implies all.subrange(2 + 4 * i, 2 + 4 * i + 4)
        == (#[trigger] batches[i]).ops() by {
        assert(all.subrange(2 + 4 * i, 2 + 4 * i + 4) =~= draws.subrange(4 * i, 4 * i + 4));
    }
    assert(all.subrange(3 + 4 * (batches.len() as int), all.len() as int) =~= over);
}

/// Composing is a function of its inputs: whatever two runs on the same
/// target, pipeline, batches and overlay answer, they answer the same, the
/// recorded operations in the same order.
pub proof fn lemma_compose_deterministic(
    target: FrameTarget,
    pipeline: ReadyPipeline,
    batches: Seq<DrawBatch>,
    overlay: Option<OverlayPass>,
    first: Result<Seq<RecordedOp>, ComposeError>,
    second: Result<Seq<RecordedOp>, ComposeError>,
)
    requires
        compose_outcome(target, pipeline, batches, overlay, first),
        compose_outcome(target, pipeline, batches, overlay, second),
    ensures
        first == second,
{
    match (first, second) {
        (
            Err(ComposeError::EmptyBatch { index: i }),
            Err(ComposeError::EmptyBatch { index: j }),
        ) => {
            if i < j {
                assert(batches[i as int].index_count > 0);
            }
            if j < i {
                assert(batches[j as int].index_count > 0);
            }
        },
        (Err(ComposeError::EmptyBatch { index: i }), _) => {
            assert(batches[i as int].index_count == 0);
        },
        (_, Err(ComposeError::EmptyBatch { index: j })) => {
            assert(batches[j as int].index_count == 0);
        },
        _ => {},
    }
}

/// Success is owed: where every batch reads indices and the overlay fits
/// the target, composing answers with the composed operations and nothing else.
pub proof fn lemma_compose_succeeds(
    target: FrameTarget,
    pipeline: ReadyPipeline,
    batches: Seq<DrawBatch>,
    overlay: Option<OverlayPass>,
    r: Result<Seq<RecordedOp>, ComposeError>,
)
    requires
        all_drawable(batches),
        overlay_fits(target, overlay),
        compose_outcome(target, pipeline, batches, overlay, r),
    ensures
        r == Ok::<Seq<RecordedOp>, ComposeError>(composed_ops(target, pipeline, batches, overlay)),
{
    match r {
        Err(ComposeError::EmptyBatch { index }) => {
            assert(batches[index as int].index_count == 0);
        },
        _ => {},
    }
}

/// Adding a pass at the end changes the pick for a target only where no
/// earlier pass was recorded against the target's image.
pub proof fn lemma_overlay_for_push(overlays: Seq<OverlayPass>, pass: OverlayPass, target: FrameTarget)
    ensures
        overlay_for(overlays.push(pass), target) == (match overlay_for(overlays, target) {
            Some(earlier) => Some(earlier),
            None => if pass.target.image == target.image {
                Some(pass)
            } else {
                None
            },
        }),
{
    let longer = overlays.push(pass);
    if exists|i: int| first_overlay_for(overlays, target, i) {
        let i = choose|i: int| first_overlay_for(overlays, target, i);
        assert(first_overlay_for(longer, target, i)) by {
            assert(longer[i] == overlays[i]);
            assert forall|j: int| 0 <= j < i implies (#[trigger] longer[j]).target.image
                != target.image by {
                assert(longer[j] == overlays[j]);
            }
        }
        let c = choose|c: int| first_overlay_for(longer, target, c);
        if c < i {
            assert(longer[c].target.image != target.image);
        }
        if i < c {
            assert(longer[i].target.image != target.image);
        }
    } else {
        assert forall|j: int| 0 <= j < overlays.len() implies (#[trigger] overlays[j]).target.image
            != target.image by {
            lemma_first_overlay_below(overlays, target, j);
        }
        if pass.target.image == target.image {
            let last = overlays.len() as int;
            assert(first_overlay_for(longer, target, last)) by {
                assert forall|j: int| 0 <= j < last implies (#[trigger] longer[j]).target.image
                    != target.image by {
                    assert(longer[j] == overlays[j]);
                }
            }
            let c = choose|c: int| first_overlay_for(longer, target, c);
            if c < last {
                assert(longer[c].target.image != target.image);
            }
        } else {
            if exists|c: int| first_overlay_for(longer, target, c) {
                let c = choose|c: int| first_overlay_for(longer, target, c);
                if c < overlays.len() {
                    assert(longer[c] == overlays[c]);
                }
            }
        }
    }
}

/// Where a pass was recorded against the target's image, there is a first one.
proof fn lemma_first_overlay_below(overlays: Seq<OverlayPass>, target: FrameTarget, j: int)
    requires
        0 <= j < overlays.len(),
        !exists|i: int| first_overlay_for(overlays, target, i),
    ensures
        overlays[j].target.image != target.image,
    decreases j,
{
    if overlays[j].target.image == target.image {
        if exists|k: int| 0 <= k < j && (#[trigger] overlays[k]).target.image == target.image {
            let k = choose|k: int| 0 <= k < j && (#[trigger] overlays[k]).target.image == target.image;
            lemma_first_overlay_below(overlays, target, k);
        } else {
            assert(first_overlay_for(overlays, target, j));
        }
    }
}

/// Every overlay pass of an image set loads and belongs to one of the targets.
pub proof fn lemma_renderpasses_within(targets: Seq<FrameTarget>, streams: Seq<Option<u64>>)
    ensures
        all_loading(renderpasses(targets, streams)),
        renderpasses(targets, streams).len() <= targets.len(),
        forall|j: int|
            0 <= j < renderpasses(targets, streams).len() ==> targets.contains(
                (#[trigger] renderpasses(targets, streams)[j]).target,
            ),
    decreases targets.len(),
{
    if targets.len() > 0 {
        let front_targets = targets.drop_last();
        let front = renderpasses(front_targets, streams);
        let all = renderpasses(targets, streams);
        lemma_renderpasses_within(front_targets, streams);
        assert forall|j: int| 0 <= j < all.len() implies targets.contains(
            (#[trigger] all[j]).target,
        ) by {
            if j < front.len() {
                assert(all[j] == front[j]);
                let t = choose|t: int|
                    0 <= t < front_targets.len() && front_targets[t] == front[j].target;
                assert(targets[t] == front[j].target);
            } else {
                assert(targets[targets.len() - 1] == all[j].target);
            }
        }
    }
}

/// The overlay passes of an image set serve the composer: over targets of
/// pairwise distinct images, the pass picked for a target is the one recorded
/// against it, if one was, and none otherwise.
pub proof fn lemma_renderpasses_fit(targets: Seq<FrameTarget>, streams: Seq<Option<u64>>, i: int)
    requires
        0 <= i < targets.len(),
        forall|a: int, b: int|
            0 <= a < b < targets.len() ==> (#[trigger] targets[a]).image != (
            #[trigger] targets[b]).image,
    ensures
        overlay_for(renderpasses(targets, streams), targets[i]) == (if i < streams.len()
            && streams[i] is Some {
            Some(OverlayPass { stream: streams[i]->0, target: targets[i], clear: ClearPolicy::Load })
        } else {
            None
        }),
    decreases targets.len(),
{
    let front_targets = targets.drop_last();
    let front = renderpasses(front_targets, streams);
    let last = targets.len() - 1;
    let added = OverlayPass {
        stream: streams[last]->0,
        target: targets[last],
        clear: ClearPolicy::Load,
    };
    assert forall|a: int, b: int| 0 <= a < b < front_targets.len() implies (
    #[trigger] front_targets[a]).image != (#[trigger] front_targets[b]).image by {
        assert(targets[a].image != targets[b].image);
    }
    if i < last {
        assert(front_targets[i] == targets[i]);
        lemma_renderpasses_fit(front_targets, streams, i);
        assert(targets[i].image != targets[last].image);
        lemma_overlay_for_push(front, added, targets[i]);
    } else {
        lemma_renderpasses_within(front_targets, streams);
        if exists|c: int| first_overlay_for(front, targets[i], c) {
            let c = choose|c: int| first_overlay_for(front, targets[i], c);
            let t = choose|t: int|
                0 <= t < front_targets.len() && front_targets[t] == front[c].target;
            assert(targets[t].image != targets[last].image);
            assert(false);
        }
        lemma_overlay_for_push(front, added, targets[i]);
    }
}

} // verus!
