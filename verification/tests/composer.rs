use chaos_vk::command::{
    ClearPolicy, CommandBufferLevel, CommandBufferUsage, RecordError, RecordedOp, SubpassContents,
    VkBuilder,
};
use chaos_vk::composer::{
    compose, find_empty_batch, get_renderpasses, pick_overlay, record_batches, record_overlay,
    ComposeError, DrawBatch, OverlayPass, PER_DRAW_SET_INDEX,
};
use chaos_vk::pipeline::ReadyPipeline;
use chaos_vk::swapchain::{Extent, PresentableImage};
use chaos_vk::target::{
    build_targets, framebuffers, FrameTarget, RenderPassLayout, TargetError,
};

fn image(index: usize) -> PresentableImage {
    PresentableImage { index, format: 50, extent: Extent { width: 800, height: 600 }, generation: 0 }
}

fn target(index: usize) -> FrameTarget {
    let layout = RenderPassLayout { color_format: 50, depth_format: Some(124) };
    build_targets(&vec![image(0), image(1), image(2)], layout, None)[index]
}

fn overlay_target(index: usize) -> FrameTarget {
    let layout = RenderPassLayout { color_format: 50, depth_format: None };
    framebuffers(layout, &vec![image(0), image(1), image(2)]).unwrap()[index]
}

fn pipeline() -> ReadyPipeline {
    ReadyPipeline { pipeline: 1, layout: 2, frame_set: 3, viewport: Extent { width: 800, height: 600 } }
}

fn batch(seed: u64, index_count: u32, instance_count: u32) -> DrawBatch {
    DrawBatch {
        vertex_buffer: 10 + seed,
        instance_buffer: if seed % 2 == 0 { Some(20 + seed) } else { None },
        index_buffer: 30 + seed,
        resource_set: 40 + seed,
        index_count,
        instance_count,
    }
}

#[test]
fn compose_records_the_fixed_order() {
    let batches = vec![batch(0, 36, 250), batch(1, 6, 0)];
    let stream = compose(&target(1), &pipeline(), &batches, None).unwrap();
    assert_eq!(
        stream.ops().clone(),
        vec![
            RecordedOp::BeginRenderPass {
                target: target(1),
                clear: ClearPolicy::Clear,
                contents: SubpassContents::Inline,
            },
            RecordedOp::BindPipeline { pipeline: 1, layout: 2, frame_set: 3 },
            RecordedOp::BindDescriptorSet { set_index: 1, set: 40 },
            RecordedOp::BindVertexBuffers { vertex: 10, instance: Some(20) },
            RecordedOp::BindIndexBuffer { index: 30 },
            RecordedOp::DrawIndexed { index_count: 36, instance_count: 250 },
            RecordedOp::BindDescriptorSet { set_index: 1, set: 41 },
            RecordedOp::BindVertexBuffers { vertex: 11, instance: None },
            RecordedOp::BindIndexBuffer { index: 31 },
            RecordedOp::DrawIndexed { index_count: 6, instance_count: 1 },
            RecordedOp::EndRenderPass,
        ]
    );
    assert_eq!(PER_DRAW_SET_INDEX, 1);
    assert_eq!(stream.get_usage(), CommandBufferUsage::OneTimeSubmit);
    assert_eq!(stream.get_level(), CommandBufferLevel::Primary);
    assert!(!stream.was_submitted());
}

#[test]
fn compose_appends_the_overlay_pass() {
    let overlay = OverlayPass { stream: 77, target: overlay_target(2), clear: ClearPolicy::Load };
    let stream = compose(&target(2), &pipeline(), &vec![batch(0, 3, 1)], Some(overlay)).unwrap();
    let ops = stream.ops();
    assert_eq!(ops.len(), 10);
    assert_eq!(ops[6], RecordedOp::EndRenderPass);
    assert_eq!(
        ops[7],
        RecordedOp::BeginRenderPass {
            target: overlay_target(2),
            clear: ClearPolicy::Load,
            contents: SubpassContents::SecondaryCommandBuffers,
        }
    );
    assert_eq!(ops[8], RecordedOp::ExecuteCommands { stream: 77 });
    assert_eq!(ops[9], RecordedOp::EndRenderPass);
    assert_eq!(stream.count_passes(SubpassContents::Inline), 1);
    assert_eq!(stream.count_passes(SubpassContents::SecondaryCommandBuffers), 1);
}

#[test]
fn compose_without_batches_is_an_empty_primary_pass() {
    let stream = compose(&target(0), &pipeline(), &Vec::new(), None).unwrap();
    assert_eq!(stream.ops().len(), 3);
    assert_eq!(stream.ops()[2], RecordedOp::EndRenderPass);
    assert_eq!(stream.count_passes(SubpassContents::Inline), 1);
    assert_eq!(stream.count_passes(SubpassContents::SecondaryCommandBuffers), 0);
}

#[test]
fn compose_is_deterministic() {
    let batches = vec![batch(0, 36, 2), batch(1, 6, 0), batch(2, 9, 1)];
    let overlay = OverlayPass { stream: 5, target: overlay_target(0), clear: ClearPolicy::Load };
    let first = compose(&target(0), &pipeline(), &batches, Some(overlay)).unwrap();
    let second = compose(&target(0), &pipeline(), &batches, Some(overlay)).unwrap();
    assert_eq!(first.ops(), second.ops());
    let reordered = vec![batches[1], batches[0], batches[2]];
    let third = compose(&target(0), &pipeline(), &reordered, Some(overlay)).unwrap();
    assert_ne!(first.ops(), third.ops());
}

#[test]
fn compose_rejects_the_first_batch_without_indices() {
    let batches = vec![batch(0, 3, 1), batch(1, 0, 1), batch(2, 0, 1)];
    assert_eq!(
        compose(&target(0), &pipeline(), &batches, None).unwrap_err(),
        ComposeError::EmptyBatch { index: 1 }
    );
    let clearing = OverlayPass { stream: 5, target: overlay_target(1), clear: ClearPolicy::Clear };
    assert_eq!(
        compose(&target(0), &pipeline(), &batches, Some(clearing)).unwrap_err(),
        ComposeError::EmptyBatch { index: 1 }
    );
    assert_eq!(find_empty_batch(&batches), Some(1));
    assert_eq!(find_empty_batch(&vec![batch(0, 3, 1)]), None);
    assert_eq!(find_empty_batch(&Vec::new()), None);
}

#[test]
fn compose_rejects_an_overlay_that_does_not_fit() {
    let batches = vec![batch(0, 3, 1)];
    let elsewhere = OverlayPass { stream: 5, target: overlay_target(1), clear: ClearPolicy::Load };
    assert_eq!(
        compose(&target(0), &pipeline(), &batches, Some(elsewhere)).unwrap_err(),
        ComposeError::OverlayTargetMismatch
    );
    let elsewhere_clearing =
        OverlayPass { stream: 5, target: overlay_target(1), clear: ClearPolicy::Clear };
    assert_eq!(
        compose(&target(0), &pipeline(), &batches, Some(elsewhere_clearing)).unwrap_err(),
        ComposeError::OverlayTargetMismatch
    );
    let clearing = OverlayPass { stream: 5, target: overlay_target(0), clear: ClearPolicy::Clear };
    assert_eq!(
        compose(&target(0), &pipeline(), &batches, Some(clearing)).unwrap_err(),
        ComposeError::OverlayClears
    );
}

#[test]
fn build_commands_needs_indices_and_an_inline_pass() {
    let mut builder = VkBuilder::new_once();
    assert_eq!(
        batch(0, 0, 1).build_commands(&mut builder),
        Err(ComposeError::EmptyBatch { index: 0 })
    );
    assert_eq!(
        batch(0, 3, 1).build_commands(&mut builder),
        Err(ComposeError::Record(RecordError::NotInPass))
    );
    builder
        .begin_render_pass(target(0), ClearPolicy::Clear, SubpassContents::SecondaryCommandBuffers)
        .unwrap();
    assert_eq!(
        batch(0, 3, 1).build_commands(&mut builder),
        Err(ComposeError::Record(RecordError::NotInPass))
    );
    builder.end_render_pass().unwrap();
    builder.begin_render_pass(target(0), ClearPolicy::Clear, SubpassContents::Inline).unwrap();
    assert_eq!(batch(0, 3, 0).build_commands(&mut builder), Ok(()));
    builder.end_render_pass().unwrap();
    let stream = builder.command_buffer().unwrap();
    assert_eq!(stream.ops().len(), 8);
    assert_eq!(stream.ops()[6], RecordedOp::DrawIndexed { index_count: 3, instance_count: 1 });
}

#[test]
fn record_batches_records_all_or_nothing() {
    let mut builder = VkBuilder::new_multiple();
    builder.begin_render_pass(target(0), ClearPolicy::Clear, SubpassContents::Inline).unwrap();
    assert_eq!(
        record_batches(&mut builder, &vec![batch(0, 3, 1), batch(1, 0, 1)]),
        Err(ComposeError::EmptyBatch { index: 1 })
    );
    assert!(builder.in_inline_pass());
    assert_eq!(record_batches(&mut builder, &vec![batch(0, 3, 1), batch(1, 4, 1)]), Ok(()));
    builder.end_render_pass().unwrap();
    assert_eq!(
        record_batches(&mut builder, &vec![batch(0, 3, 1)]),
        Err(ComposeError::Record(RecordError::NotInPass))
    );
    let stream = builder.command_buffer().unwrap();
    assert_eq!(stream.ops().len(), 1 + 8 + 1);
    assert_eq!(stream.get_usage(), CommandBufferUsage::MultipleSubmit);
}

#[test]
fn record_overlay_needs_to_stand_outside_a_pass() {
    let overlay = OverlayPass { stream: 9, target: overlay_target(0), clear: ClearPolicy::Load };
    let mut builder = VkBuilder::new_once();
    builder.begin_render_pass(target(0), ClearPolicy::Clear, SubpassContents::Inline).unwrap();
    assert_eq!(
        record_overlay(&mut builder, &overlay),
        Err(ComposeError::Record(RecordError::AlreadyInPass))
    );
    builder.end_render_pass().unwrap();
    assert_eq!(record_overlay(&mut builder, &overlay), Ok(()));
    let stream = builder.command_buffer().unwrap();
    assert_eq!(stream.ops().len(), 5);
    assert_eq!(stream.ops()[3], RecordedOp::ExecuteCommands { stream: 9 });
}

#[test]
fn record_command_buffer_makes_a_secondary_stream() {
    let stream = batch(1, 12, 0).record_command_buffer(&pipeline()).unwrap();
    assert_eq!(
        stream.ops().clone(),
        vec![
            RecordedOp::BindPipeline { pipeline: 1, layout: 2, frame_set: 3 },
            RecordedOp::BindDescriptorSet { set_index: 1, set: 41 },
            RecordedOp::BindVertexBuffers { vertex: 11, instance: None },
            RecordedOp::BindIndexBuffer { index: 31 },
            RecordedOp::DrawIndexed { index_count: 12, instance_count: 1 },
        ]
    );
    assert_eq!(stream.get_level(), CommandBufferLevel::Secondary);
    assert_eq!(stream.get_usage(), CommandBufferUsage::SimultaneousUse);
    assert_eq!(
        batch(1, 0, 1).record_command_buffer(&pipeline()).unwrap_err(),
        ComposeError::EmptyBatch { index: 0 }
    );
}

#[test]
fn pick_overlay_takes_the_first_pass_for_the_image() {
    let passes = vec![
        OverlayPass { stream: 1, target: overlay_target(1), clear: ClearPolicy::Load },
        OverlayPass { stream: 2, target: overlay_target(0), clear: ClearPolicy::Load },
        OverlayPass { stream: 3, target: overlay_target(0), clear: ClearPolicy::Load },
    ];
    assert_eq!(pick_overlay(&passes, &target(0)), Some(passes[1]));
    assert_eq!(pick_overlay(&passes, &target(1)), Some(passes[0]));
    assert_eq!(pick_overlay(&passes, &target(2)), None);
    assert_eq!(pick_overlay(&Vec::new(), &target(0)), None);
}

#[test]
fn get_renderpasses_skips_targets_without_a_stream() {
    let images = vec![image(0), image(1), image(2)];
    let flat = RenderPassLayout { color_format: 50, depth_format: None };
    let passes = get_renderpasses(&images, flat, &vec![Some(70), None, Some(72)]).unwrap();
    assert_eq!(
        passes,
        vec![
            OverlayPass { stream: 70, target: overlay_target(0), clear: ClearPolicy::Load },
            OverlayPass { stream: 72, target: overlay_target(2), clear: ClearPolicy::Load },
        ]
    );
    assert_eq!(pick_overlay(&passes, &target(2)), Some(passes[1]));
    assert_eq!(pick_overlay(&passes, &target(1)), None);
    let short = get_renderpasses(&images, flat, &vec![Some(70)]).unwrap();
    assert_eq!(short.len(), 1);
    let deep = RenderPassLayout { color_format: 50, depth_format: Some(124) };
    assert_eq!(
        get_renderpasses(&images, deep, &vec![Some(70)]),
        Err(TargetError::AttachmentMismatch)
    );
}

#[test]
fn builder_tracks_the_open_pass() {
    let mut builder = VkBuilder::new_once();
    assert!(!builder.in_inline_pass());
    assert_eq!(builder.end_render_pass(), Err(RecordError::NotInPass));
    assert_eq!(builder.draw_indexed(3, 1), Err(RecordError::NotInPass));
    assert_eq!(builder.execute_commands(4), Err(RecordError::NotInPass));
    assert_eq!(builder.dispatch([1, 1, 1]), Ok(()));
    builder.begin_render_pass(target(0), ClearPolicy::Clear, SubpassContents::Inline).unwrap();
    assert!(builder.in_inline_pass());
    assert_eq!(
        builder.begin_render_pass(target(1), ClearPolicy::Load, SubpassContents::Inline),
        Err(RecordError::AlreadyInPass)
    );
    assert_eq!(builder.dispatch([1, 1, 1]), Err(RecordError::AlreadyInPass));
    assert_eq!(builder.execute_commands(4), Err(RecordError::NotInPass));
    assert_eq!(builder.draw_indexed(3, 1), Ok(()));
    assert_eq!(builder.command_buffer().unwrap_err(), RecordError::PassStillOpen);
}

#[test]
fn secondary_builder_may_end_inside_its_pass() {
    let mut builder = VkBuilder::new_secondary(Some(SubpassContents::Inline));
    assert!(builder.in_inline_pass());
    builder.bind_pipeline_graphics(1, 2, 3);
    builder.bind_descriptor_sets(0, 5);
    builder.bind_vertex_buffers(6, None);
    builder.bind_index_buffer(7);
    builder.draw_indexed(3, 1).unwrap();
    let stream = builder.command_buffer().unwrap();
    assert_eq!(stream.ops().len(), 5);
    assert_eq!(stream.get_level(), CommandBufferLevel::Secondary);
    let free = VkBuilder::new_secondary(None);
    assert!(!free.in_inline_pass());
    assert!(free.command_buffer().unwrap().ops().is_empty());
}

#[test]
fn single_use_stream_is_submitted_once() {
    let mut once = VkBuilder::new_once().command_buffer().unwrap();
    assert_eq!(once.mark_submitted(), Ok(()));
    assert!(once.was_submitted());
    assert_eq!(once.mark_submitted(), Err(RecordError::AlreadySubmitted));
    let mut many = VkBuilder::new_multiple().command_buffer().unwrap();
    assert_eq!(many.mark_submitted(), Ok(()));
    assert_eq!(many.mark_submitted(), Ok(()));
    let mut shared = VkBuilder::new_secondary(None).command_buffer().unwrap();
    assert_eq!(shared.mark_submitted(), Ok(()));
    assert_eq!(shared.mark_submitted(), Ok(()));
}
