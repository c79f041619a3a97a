//! Pipeline handles: a pipeline can be bound only once its per-frame
//! resource set is configured, and a viewport rebuild replaces the pipeline
//! object while the resource layout stays.

use vstd::prelude::*;
use crate::command::{
    CommandBufferLevel,
    CommandBufferUsage,
    CommandStream,
    RecordedOp,
    VkBuilder,
};
use crate::swapchain::Extent;

verus! {

/// A pipeline that can be bound: the compiled object, the identity of its
/// resource layout, the per-frame resource set bound at set index 0, and the
/// viewport extent baked into it.
#[derive(Clone, Copy, Debug, PartialEq, Eq, Structural)]
pub struct ReadyPipeline {
    pub pipeline: u64,
    pub layout: u64,
    pub frame_set: u64,
    pub viewport: Extent,
}

/// A pipeline on its way to being bindable.
#[derive(Clone, Copy, Debug, PartialEq, Eq, Structural)]
pub enum VkGraphicsPipeline {
    /// Compiled, no per-frame resource set written yet.
    Unconfigured { pipeline: u64, layout: u64, viewport: Extent },
    /// Compiled and configured.
    Ready(ReadyPipeline),
}

impl ReadyPipeline {
    /// The pipeline after its viewport state was rebuilt at `extent` into the
    /// object `pipeline`: layout and per-frame set are kept.
    pub open spec fn rebuilt(self, pipeline: u64, extent: Extent) -> ReadyPipeline {
        ReadyPipeline { pipeline, viewport: extent, ..self }
    }

    /// Replaces the pipeline object after a viewport rebuild at `extent`.
    pub fn rebuild_viewport(&mut self, pipeline: u64, extent: Extent)
        ensures
            *final(self) == old(self).rebuilt(pipeline, extent),
            final(self).layout == old(self).layout,
            final(self).frame_set == old(self).frame_set,
    {
        self.pipeline = pipeline;
        self.viewport = extent;
    }
}

impl VkGraphicsPipeline {
    /// A freshly compiled pipeline with a unit viewport.
    pub fn new(pipeline: u64, layout: u64) -> (state: VkGraphicsPipeline)
        ensures
            state == (VkGraphicsPipeline::Unconfigured {
                pipeline,
                layout,
                viewport: Extent { width: 1, height: 1 },
            }),
    {
        VkGraphicsPipeline::Unconfigured { pipeline, layout, viewport: Extent { width: 1, height: 1 } }
    }

    /// The pipeline with `frame_set` as its per-frame resource set. Writing
    /// the set again replaces the earlier one.
    pub open spec fn configured(self, frame_set: u64) -> VkGraphicsPipeline {
        match self {
            VkGraphicsPipeline::Unconfigured { pipeline, layout, viewport } => VkGraphicsPipeline::Ready(
                ReadyPipeline { pipeline, layout, frame_set, viewport },
            ),
            VkGraphicsPipeline::Ready(ready) => VkGraphicsPipeline::Ready(
                ReadyPipeline { frame_set, ..ready },
            ),
        }
    }

    /// Records the per-frame resource set, which makes the pipeline ready.
    pub fn set_descriptor_set_writes(&mut self, frame_set: u64)
        ensures
            *final(self) == old(self).configured(frame_set),
            *final(self) is Ready,
    {
        let next = match *self {
            VkGraphicsPipeline::Unconfigured { pipeline, layout, viewport } => VkGraphicsPipeline::Ready(
                ReadyPipeline { pipeline, layout, frame_set, viewport },
            ),
            VkGraphicsPipeline::Ready(ready) => VkGraphicsPipeline::Ready(
                ReadyPipeline {
                    pipeline: ready.pipeline,
                    layout: ready.layout,
                    frame_set,
                    viewport: ready.viewport,
                },
            ),
        };
        *self = next;
    }

    /// The bindable handle, where the pipeline is ready.
    pub fn ready(&self) -> (handle: Option<ReadyPipeline>)
        ensures
            handle == match *self {
                VkGraphicsPipeline::Ready(ready) => Some(ready),
                VkGraphicsPipeline::Unconfigured { .. } => None,
            },
    {
        match self {
            VkGraphicsPipeline::Ready(ready) => Some(*ready),
            VkGraphicsPipeline::Unconfigured { .. } => None,
        }
    }
}

/// The work groups one dispatch launches, along x, y and z.
pub const WORKGROUP_COUNTS: [u32; 3] = [1024, 1, 1];

/// A compute pipeline on its way to being dispatched.
#[derive(Clone, Copy, Debug, PartialEq, Eq, Structural)]
pub enum VkComputePipeline {
    /// Compiled, no resource set written yet.
    Unconfigured { pipeline: u64 },
    /// Compiled, with the resource set to bind and the index to bind it at.
    Ready { pipeline: u64, descriptor_set: u64, descriptor_set_layout_index: u32 },
}

/// Why a pipeline cannot be used.
#[derive(Clone, Copy, Debug, PartialEq, Eq, Structural)]
pub enum PipelineError {
    /// No resource set has been written.
    NotConfigured,
}

impl VkComputePipeline {
    /// A freshly compiled compute pipeline.
    pub fn new(pipeline: u64) -> (state: VkComputePipeline)
        ensures
            state == (VkComputePipeline::Unconfigured { pipeline }),
    {
        VkComputePipeline::Unconfigured { pipeline }
    }

    /// The compiled pipeline object.
    pub open spec fn pipeline(self) -> u64 {
        match self {
            VkComputePipeline::Unconfigured { pipeline } => pipeline,
            VkComputePipeline::Ready { pipeline, .. } => pipeline,
        }
    }

    /// The operations of one dispatch: bind the pipeline, bind its resource
    /// set, launch the work groups.
    pub open spec fn dispatch_ops(self) -> Seq<RecordedOp> {
        match self {
            VkComputePipeline::Unconfigured { .. } => Seq::empty(),
            VkComputePipeline::Ready {
                pipeline,
                descriptor_set,
                descriptor_set_layout_index,
            } => seq![
                RecordedOp::BindPipelineCompute { pipeline },
                RecordedOp::BindDescriptorSet {
                    set_index: descriptor_set_layout_index,
                    set: descriptor_set,
                },
                RecordedOp::Dispatch { group_counts: WORKGROUP_COUNTS },
            ],
        }
    }

    /// Records the resource set, bound at set index 0, which makes the
    /// pipeline ready. Writing the set again replaces the earlier one.
    pub fn set_descriptor_set_writes(&mut self, descriptor_set: u64)
        ensures
            *final(self) == (VkComputePipeline::Ready {
                pipeline: old(self).pipeline(),
                descriptor_set,
                descriptor_set_layout_index: 0,
            }),
    {
        let pipeline = match *self {
            VkComputePipeline::Unconfigured { pipeline } => pipeline,
            VkComputePipeline::Ready { pipeline, .. } => pipeline,
        };
        *self = VkComputePipeline::Ready { pipeline, descriptor_set, descriptor_set_layout_index: 0 };
    }

    /// Composes the single-use stream of one dispatch. A pipeline without a
    /// resource set is refused.
    pub fn dispatch(&self) -> (r: Result<CommandStream, PipelineError>)
        ensures
            match r {
                Ok(stream) => *self is Ready && stream@ == self.dispatch_ops() && stream.usage()
                    == CommandBufferUsage::OneTimeSubmit && stream.level()
                    == CommandBufferLevel::Primary && !stream.submitted(),
                Err(e) => *self is Unconfigured && e == PipelineError::NotConfigured,
            },
    {
        match *self {
            VkComputePipeline::Unconfigured { .. } => Err(PipelineError::NotConfigured),
            VkComputePipeline::Ready { pipeline, descriptor_set, descriptor_set_layout_index } => {
                let mut builder = VkBuilder::new_once();
                builder.bind_pipeline_compute(pipeline);
                builder.bind_descriptor_sets(descriptor_set_layout_index, descriptor_set);
                let launched = builder.dispatch(WORKGROUP_COUNTS);
                assert(launched is Ok);
                assert(builder@.ops =~= self.dispatch_ops());
                let sealed = builder.command_buffer();
                assert(sealed is Ok);
                sealed.map_err(|e: crate::command::RecordError| PipelineError::NotConfigured)
            },
        }
    }
}

} // verus!
