//! Command streams: a builder that records operations in order, and the
//! sealed stream it is turned into for submission.

use vstd::prelude::*;
use crate::target::FrameTarget;

verus! {

/// How often a sealed stream may be submitted.
#[derive(Clone, Copy, Debug, PartialEq, Eq, Structural)]
pub enum CommandBufferUsage {
    /// Once; the stream is recorded anew for every frame.
    OneTimeSubmit,
    /// Any number of times, one submission at a time.
    MultipleSubmit,
    /// Any number of times, also while an earlier submission is pending.
    SimultaneousUse,
}

/// Whether a stream is submitted by itself or executed from another stream.
#[derive(Clone, Copy, Debug, PartialEq, Eq, Structural)]
pub enum CommandBufferLevel {
    Primary,
    Secondary,
}

/// What beginning a pass does to the attachments.
#[derive(Clone, Copy, Debug, PartialEq, Eq, Structural)]
pub enum ClearPolicy {
    /// Clear colour to the background and depth to the far plane.
    Clear,
    /// Keep what the attachment holds.
    Load,
}

/// What a pass is filled with.
#[derive(Clone, Copy, Debug, PartialEq, Eq, Structural)]
pub enum SubpassContents {
    /// Draw calls recorded in the stream itself.
    Inline,
    /// Pre-recorded secondary streams.
    SecondaryCommandBuffers,
}

/// One recorded operation.
#[derive(Clone, Copy, Debug, PartialEq, Eq)]
pub enum RecordedOp {
    BeginRenderPass { target: FrameTarget, clear: ClearPolicy, contents: SubpassContents },
    /// Binds the pipeline together with its per-frame resource set, at set index 0.
    BindPipeline { pipeline: u64, layout: u64, frame_set: u64 },
    BindDescriptorSet { set_index: u32, set: u64 },
    BindVertexBuffers { vertex: u64, instance: Option<u64> },
    BindIndexBuffer { index: u64 },
    DrawIndexed { index_count: u32, instance_count: u32 },
    EndRenderPass,
    ExecuteCommands { stream: u64 },
    BindPipelineCompute { pipeline: u64 },
    Dispatch { group_counts: [u32; 3] },
}

/// Why an operation was not recorded, or a stream not sealed or submitted.
#[derive(Clone, Copy, Debug, PartialEq, Eq, Structural)]
pub enum RecordError {
    /// The operation needs to stand outside any pass, and one is open.
    AlreadyInPass,
    /// The operation needs an open pass of the fitting contents.
    NotInPass,
    /// The stream was sealed while a pass is open.
    PassStillOpen,
    /// A single-use stream was submitted before.
    AlreadySubmitted,
}

/// Whether `op` begins a pass of the given contents.
pub open spec fn begins_pass(op: RecordedOp, contents: SubpassContents) -> bool {
    match op {
        RecordedOp::BeginRenderPass { contents: c, .. } => c == contents,
        _ => false,
    }
}

/// How many passes of the given contents `ops` begin.
pub open spec fn passes_begun(ops: Seq<RecordedOp>, contents: SubpassContents) -> nat
    decreases ops.len(),
{
    if ops.len() == 0 {
        0
    } else {
        passes_begun(ops.drop_last(), contents) + if begins_pass(ops.last(), contents) {
            1nat
        } else {
            0nat
        }
    }
}

/// What a builder has recorded so far.
pub struct BuilderState {
    /// The operations, in recording order.
    pub ops: Seq<RecordedOp>,
    /// The contents of the pass that is open, if one is.
    pub pass: Option<SubpassContents>,
    pub usage: CommandBufferUsage,
    pub level: CommandBufferLevel,
}

impl BuilderState {
    /// The state after recording `op`, with `pass` as the open pass.
    pub open spec fn recorded(self, op: RecordedOp, pass: Option<SubpassContents>) -> BuilderState {
        BuilderState { ops: self.ops.push(op), pass, ..self }
    }
}

/// Accumulates the operations of one command stream.
pub struct VkBuilder {
    ops: Vec<RecordedOp>,
    pass: Option<SubpassContents>,
    usage: CommandBufferUsage,
    level: CommandBufferLevel,
}

/// A sealed command stream: its operations can be read and no longer changed.
#[derive(Debug)]
pub struct CommandStream {
    ops: Vec<RecordedOp>,
    usage: CommandBufferUsage,
    level: CommandBufferLevel,
    submitted: bool,
}

impl View for VkBuilder {
    type V = BuilderState;

    closed spec fn view(&self) -> BuilderState {
        BuilderState { ops: self.ops@, pass: self.pass, usage: self.usage, level: self.level }
    }
}

impl VkBuilder {
    fn with(usage: CommandBufferUsage, level: CommandBufferLevel) -> (builder: VkBuilder)
        ensures
            builder@ == (BuilderState { ops: Seq::empty(), pass: None, usage, level }),
    {
        VkBuilder { ops: Vec::new(), pass: None, usage, level }
    }

    /// A builder for a primary stream that is submitted once.
    pub fn new_once() -> (builder: VkBuilder)
        ensures
            builder@ == (BuilderState {
                ops: Seq::empty(),
                pass: None,
                usage: CommandBufferUsage::OneTimeSubmit,
                level: CommandBufferLevel::Primary,
            }),
    {
        VkBuilder::with(CommandBufferUsage::OneTimeSubmit, CommandBufferLevel::Primary)
    }

    /// A builder for a primary stream that may be submitted again and again.
    pub fn new_multiple() -> (builder: VkBuilder)
        ensures
            builder@ == (BuilderState {
                ops: Seq::empty(),
                pass: None,
                usage: CommandBufferUsage::MultipleSubmit,
                level: CommandBufferLevel::Primary,
            }),
    {
        VkBuilder::with(CommandBufferUsage::MultipleSubmit, CommandBufferLevel::Primary)
    }

    /// A builder for a secondary stream. With `inherited` it continues a pass
    /// of those contents that the executing stream has begun.
    pub fn new_secondary(inherited: Option<SubpassContents>) -> (builder: VkBuilder)
        ensures
            builder@ == (BuilderState {
                ops: Seq::empty(),
                pass: inherited,
                usage: CommandBufferUsage::SimultaneousUse,
                level: CommandBufferLevel::Secondary,
            }),
    {
        let mut builder = VkBuilder::with(
            CommandBufferUsage::SimultaneousUse,
            CommandBufferLevel::Secondary,
        );
        builder.pass = inherited;
        builder
    }

    /// Whether a pass with inline contents is open.
    pub fn in_inline_pass(&self) -> (b: bool)
        ensures
            b == (self@.pass == Some(SubpassContents::Inline)),
    {
        match self.pass {
            Some(SubpassContents::Inline) => true,
            _ => false,
        }
    }

    /// Begins a pass on `target`. Refused while a pass is open.
    pub fn begin_render_pass(
        &mut self,
        target: FrameTarget,
        clear: ClearPolicy,
        contents: SubpassContents,
    ) -> (r: Result<(), RecordError>)
        ensures
            match r {
                Ok(()) => old(self)@.pass is None && final(self)@ == old(self)@.recorded(
                    RecordedOp::BeginRenderPass { target, clear, contents },
                    Some(contents),
                ),
                Err(e) => old(self)@.pass is Some && e == RecordError::AlreadyInPass && final(self)@
                    == old(self)@,
            },
    {
        if self.pass.is_some() {
            return Err(RecordError::AlreadyInPass);
        }
        self.ops.push(RecordedOp::BeginRenderPass { target, clear, contents });
        self.pass = Some(contents);
        Ok(())
    }

    /// Binds a graphics pipeline and its per-frame resource set.
    pub fn bind_pipeline_graphics(&mut self, pipeline: u64, layout: u64, frame_set: u64)
        ensures
            final(self)@ == old(self)@.recorded(
                RecordedOp::BindPipeline { pipeline, layout, frame_set },
                old(self)@.pass,
            ),
    {
        self.ops.push(RecordedOp::BindPipeline { pipeline, layout, frame_set });
    }

    /// Binds a resource set at `set_index`.
    pub fn bind_descriptor_sets(&mut self, set_index: u32, set: u64)
        ensures
            final(self)@ == old(self)@.recorded(
                RecordedOp::BindDescriptorSet { set_index, set },
                old(self)@.pass,
            ),
    {
        self.ops.push(RecordedOp::BindDescriptorSet { set_index, set });
    }

    /// Binds the vertex buffer and, where there is one, the instance buffer.
    pub fn bind_vertex_buffers(&mut self, vertex: u64, instance: Option<u64>)
        ensures
            final(self)@ == old(self)@.recorded(
                RecordedOp::BindVertexBuffers { vertex, instance },
                old(self)@.pass,
            ),
    {
        self.ops.push(RecordedOp::BindVertexBuffers { vertex, instance });
    }

    /// Binds the index buffer.
    pub fn bind_index_buffer(&mut self, index: u64)
        ensures
            final(self)@ == old(self)@.recorded(
                RecordedOp::BindIndexBuffer { index },
                old(self)@.pass,
            ),
    {
        self.ops.push(RecordedOp::BindIndexBuffer { index });
    }

    /// Issues an indexed draw. Refused outside a pass with inline contents.
    pub fn draw_indexed(&mut self, index_count: u32, instance_count: u32) -> (r: Result<
        (),
        RecordError,
    >)
        ensures
            match r {
                Ok(()) => old(self)@.pass == Some(SubpassContents::Inline) && final(self)@ == old(
                    self,
                )@.recorded(
                    RecordedOp::DrawIndexed { index_count, instance_count },
                    old(self)@.pass,
                ),
                Err(e) => old(self)@.pass != Some(SubpassContents::Inline) && e
                    == RecordError::NotInPass && final(self)@ == old(self)@,
            },
    {
        match self.pass {
            Some(SubpassContents::Inline) => {
                self.ops.push(RecordedOp::DrawIndexed { index_count, instance_count });
                Ok(())
            },
            _ => Err(RecordError::NotInPass),
        }
    }

    /// Executes a pre-recorded secondary stream. Refused outside a pass whose
    /// contents are secondary streams.
    pub fn execute_commands(&mut self, stream: u64) -> (r: Result<(), RecordError>)
        ensures
            match r {
                Ok(()) => old(self)@.pass == Some(SubpassContents::SecondaryCommandBuffers)
                    && final(self)@ == old(self)@.recorded(
                    RecordedOp::ExecuteCommands { stream },
                    old(self)@.pass,
                ),
                Err(e) => old(self)@.pass != Some(SubpassContents::SecondaryCommandBuffers) && e
                    == RecordError::NotInPass && final(self)@ == old(self)@,
            },
    {
        match self.pass {
            Some(SubpassContents::SecondaryCommandBuffers) => {
                self.ops.push(RecordedOp::ExecuteCommands { stream });
                Ok(())
            },
            _ => Err(RecordError::NotInPass),
        }
    }

    /// Binds a compute pipeline.
    pub fn bind_pipeline_compute(&mut self, pipeline: u64)
        ensures
            final(self)@ == old(self)@.recorded(
                RecordedOp::BindPipelineCompute { pipeline },
                old(self)@.pass,
            ),
    {
        self.ops.push(RecordedOp::BindPipelineCompute { pipeline });
    }

    /// Launches compute work groups. Refused inside a pass.
    pub fn dispatch(&mut self, group_counts: [u32; 3]) -> (r: Result<(), RecordError>)
        ensures
            match r {
                Ok(()) => old(self)@.pass is None && final(self)@ == old(self)@.recorded(
                    RecordedOp::Dispatch { group_counts },
                    None,
                ),
                Err(e) => old(self)@.pass is Some && e == RecordError::AlreadyInPass && final(self)@
                    == old(self)@,
            },
    {
        if self.pass.is_some() {
            return Err(RecordError::AlreadyInPass);
        }
        self.ops.push(RecordedOp::Dispatch { group_counts });
        Ok(())
    }

    /// Ends the open pass. Refused where none is open.
    pub fn end_render_pass(&mut self) -> (r: Result<(), RecordError>)
        ensures
            match r {
                Ok(()) => old(self)@.pass is Some && final(self)@ == old(self)@.recorded(
                    RecordedOp::EndRenderPass,
                    None,
                ),
                Err(e) => old(self)@.pass is None && e == RecordError::NotInPass && final(self)@
                    == old(self)@,
            },
    {
        if self.pass.is_none() {
            return Err(RecordError::NotInPass);
        }
        self.ops.push(RecordedOp::EndRenderPass);
        self.pass = None;
        Ok(())
    }

    /// Seals the stream. A primary stream is refused while a pass is open; a
    /// secondary stream ends inside the pass it continues.
    pub fn command_buffer(self) -> (r: Result<CommandStream, RecordError>)
        ensures
            match r {
                Ok(stream) => !(self@.level == CommandBufferLevel::Primary && self@.pass is Some)
                    && stream@ == self@.ops && stream.usage() == self@.usage && stream.level()
                    == self@.level && !stream.submitted(),
                Err(e) => self@.level == CommandBufferLevel::Primary && self@.pass is Some && e
                    == RecordError::PassStillOpen,
            },
    {
        let primary = match self.level {
            CommandBufferLevel::Primary => true,
            CommandBufferLevel::Secondary => false,
        };
        if primary && self.pass.is_some() {
            return Err(RecordError::PassStillOpen);
        }
        Ok(CommandStream { ops: self.ops, usage: self.usage, level: self.level, submitted: false })
    }
}

impl View for CommandStream {
    type V = Seq<RecordedOp>;

    closed spec fn view(&self) -> Seq<RecordedOp> {
        self.ops@
    }
}

impl CommandStream {
    /// How often the stream may be submitted.
    pub closed spec fn usage(&self) -> CommandBufferUsage {
        self.usage
    }

    /// Whether the stream is primary or secondary.
    pub closed spec fn level(&self) -> CommandBufferLevel {
        self.level
    }

    /// Whether the stream has been handed to a queue.
    pub closed spec fn submitted(&self) -> bool {
        self.submitted
    }

    /// The stream may be handed to a queue (again).
    pub open spec fn submittable(&self) -> bool {
        !(self.usage() == CommandBufferUsage::OneTimeSubmit && self.submitted())
    }

    /// The recorded operations, in order.
    pub fn ops(&self) -> (ops: &Vec<RecordedOp>)
        ensures
            ops@ == self@,
    {
        &self.ops
    }

    /// The usage the stream was built for.
    pub fn get_usage(&self) -> (usage: CommandBufferUsage)
        ensures
            usage == self.usage(),
    {
        self.usage
    }

    /// The level the stream was built at.
    pub fn get_level(&self) -> (level: CommandBufferLevel)
        ensures
            level == self.level(),
    {
        self.level
    }

    /// Whether the stream was submitted before.
    pub fn was_submitted(&self) -> (b: bool)
        ensures
            b == self.submitted(),
    {
        self.submitted
    }

    /// Counts the passes of the given contents that the stream begins.
    pub fn count_passes(&self, contents: SubpassContents) -> (count: usize)
        ensures
            count == passes_begun(self@, contents),
    {
        let mut count: usize = 0;
        let mut i: usize = 0;
        assert(self.ops@.take(0) =~= Seq::<RecordedOp>::empty());
        while i < self.ops.len()
            invariant
                i <= self.ops.len(),
                count <= i,
                count == passes_begun(self.ops@.take(i as int), contents),
            decreases self.ops.len() - i,
        {
            assert(self.ops@.take(i as int + 1).drop_last() =~= self.ops@.take(i as int));
            assert(self.ops@.take(i as int + 1).last() == self.ops@[i as int]);
            let begins = match self.ops[i] {
                RecordedOp::BeginRenderPass { contents: c, .. } => c == contents,
                _ => false,
            };
            if begins {
                count = count + 1;
            }
            i = i + 1;
        }
        assert(self.ops@.take(i as int) =~= self.ops@);
        count
    }

    /// Notes a submission. A single-use stream is refused the second time;
    /// the operations never change.
    pub fn mark_submitted(&mut self) -> (r: Result<(), RecordError>)
        ensures
            final(self)@ == old(self)@,
            final(self).usage() == old(self).usage(),
            final(self).level() == old(self).level(),
            match r {
                Ok(()) => old(self).submittable() && final(self).submitted(),
                Err(e) => !old(self).submittable() && e == RecordError::AlreadySubmitted
                    && final(self).submitted(),
            },
    {
        let once = match self.usage {
            CommandBufferUsage::OneTimeSubmit => true,
            _ => false,
        };
        if once && self.submitted {
            return Err(RecordError::AlreadySubmitted);
        }
        self.submitted = true;
        Ok(())
    }
}

} // verus!
