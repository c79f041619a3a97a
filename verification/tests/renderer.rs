use chaos_vk::command::{
    ClearPolicy, CommandBufferUsage, RecordError, RecordedOp, SubpassContents, VkBuilder,
};
use chaos_vk::composer::{ComposeError, DrawBatch, OverlayPass};
use chaos_vk::pipeline::ReadyPipeline;
use chaos_vk::presenter::{
    Phase, PresentAction, PresentError, PresentEvent, RecreatePlan, RecreateStep, SubmissionTicket,
};
use chaos_vk::renderer::{FrameAction, FrameError, FrameEvent, Renderer};
use chaos_vk::swapchain::{CompositeAlpha, Extent, SurfaceCapabilities, Swapchain};
use chaos_vk::target::{framebuffers, RenderPassLayout};

fn chain(images: usize, width: u32, height: u32) -> Swapchain {
    let caps = SurfaceCapabilities {
        surface: 7,
        min_image_count: 1,
        supported_composite_alpha: vec![CompositeAlpha::Opaque],
        formats: vec![50],
    };
    Swapchain::create(&caps, Extent { width, height }, images).unwrap().0
}

fn pipeline() -> ReadyPipeline {
    ReadyPipeline { pipeline: 11, layout: 12, frame_set: 13, viewport: Extent { width: 800, height: 600 } }
}

fn batch(seed: u64, index_count: u32) -> DrawBatch {
    DrawBatch {
        vertex_buffer: 100 + seed,
        instance_buffer: None,
        index_buffer: 200 + seed,
        resource_set: 300 + seed,
        index_count,
        instance_count: 1,
    }
}

/// What the device is scripted to answer.
struct Script {
    images: usize,
    next_image: usize,
    out_of_date: bool,
    suboptimal: bool,
}

/// What the engine asked for during one frame, in order.
#[derive(Default)]
struct Log {
    actions: Vec<FrameAction>,
    streams: Vec<Vec<RecordedOp>>,
    max_slots: usize,
}

fn run_frame(
    renderer: &mut Renderer,
    script: &mut Script,
    extent: Extent,
    resize: bool,
    log: &mut Log,
) -> Result<(), FrameError> {
    let mut action = renderer.new_frame(extent, resize)?;
    loop {
        log.actions.push(action);
        log.max_slots = log.max_slots.max(renderer.presenter().slots().len());
        let event = match action {
            FrameAction::Recreate { .. } => {
                FrameEvent::Recreated { image_count: script.images, pipeline: 99 }
            }
            FrameAction::Device(PresentAction::AcquireImage) => {
                if script.out_of_date {
                    script.out_of_date = false;
                    FrameEvent::Device(PresentEvent::OutOfDate)
                } else {
                    let image = script.next_image % script.images;
                    script.next_image += 1;
                    FrameEvent::Device(PresentEvent::ImageAcquired {
                        image,
                        suboptimal: script.suboptimal,
                    })
                }
            }
            FrameAction::Device(PresentAction::WaitFence { .. }) => {
                FrameEvent::Device(PresentEvent::FenceSignaled)
            }
            FrameAction::Device(PresentAction::Submit { .. }) => {
                let stream = renderer.command_buffer().expect("a stream to submit");
                assert_eq!(stream.get_usage(), CommandBufferUsage::OneTimeSubmit);
                assert!(!stream.was_submitted());
                log.streams.push(stream.ops().clone());
                FrameEvent::Device(PresentEvent::WorkSubmitted)
            }
            FrameAction::Device(PresentAction::Present { .. }) => {
                assert!(renderer.command_buffer().expect("the frame's stream").was_submitted());
                FrameEvent::Device(PresentEvent::PresentQueued { out_of_date: false })
            }
            FrameAction::Device(PresentAction::FrameDone)
            | FrameAction::Device(PresentAction::FrameDropped) => return Ok(()),
        };
        action = renderer.update(event)?;
    }
}

fn passes_of(ops: &[RecordedOp], wanted: SubpassContents) -> usize {
    ops.iter()
        .filter(|op| matches!(op, RecordedOp::BeginRenderPass { contents, .. } if *contents == wanted))
        .count()
}

#[test]
fn ten_frames_on_two_images_submit_ten_single_pass_streams() {
    let extent = Extent { width: 800, height: 600 };
    let mut renderer = Renderer::new(chain(2, 800, 600), pipeline());
    let mut script = Script { images: 2, next_image: 0, out_of_date: false, suboptimal: false };
    let mut log = Log::default();
    for _ in 0..10 {
        for mesh in 0..5 {
            renderer.add_batch(batch(mesh, 36 + mesh as u32)).unwrap();
        }
        run_frame(&mut renderer, &mut script, extent, false, &mut log).unwrap();
        assert!(renderer.is_idle());
        assert!(renderer.command_buffer().is_none());
    }
    assert_eq!(log.streams.len(), 10);
    for ops in &log.streams {
        assert_eq!(passes_of(ops, SubpassContents::Inline), 1);
        assert_eq!(passes_of(ops, SubpassContents::SecondaryCommandBuffers), 0);
        assert_eq!(ops.len(), 3 + 4 * 5);
        assert!(matches!(
            ops[0],
            RecordedOp::BeginRenderPass { clear: ClearPolicy::Clear, contents: SubpassContents::Inline, .. }
        ));
        assert_eq!(ops[1], RecordedOp::BindPipeline { pipeline: 11, layout: 12, frame_set: 13 });
        assert_eq!(ops[ops.len() - 1], RecordedOp::EndRenderPass);
        let draws = ops.iter().filter(|op| matches!(op, RecordedOp::DrawIndexed { .. })).count();
        assert_eq!(draws, 5);
    }
    assert_eq!(log.max_slots, 2);
    assert_eq!(renderer.presenter().slots().len(), 2);
    assert!(log.actions.iter().all(|a| !matches!(a, FrameAction::Recreate { .. })));
}

#[test]
fn streams_of_consecutive_frames_draw_to_alternating_targets() {
    let extent = Extent { width: 800, height: 600 };
    let mut renderer = Renderer::new(chain(2, 800, 600), pipeline());
    let mut script = Script { images: 2, next_image: 0, out_of_date: false, suboptimal: false };
    let mut log = Log::default();
    for _ in 0..4 {
        renderer.add_batch(batch(0, 3)).unwrap();
        run_frame(&mut renderer, &mut script, extent, false, &mut log).unwrap();
    }
    let drawn: Vec<usize> = log
        .streams
        .iter()
        .map(|ops| match ops[0] {
            RecordedOp::BeginRenderPass { target, .. } => target.image.index,
            _ => panic!("a stream begins with its primary pass"),
        })
        .collect();
    assert_eq!(drawn, vec![0, 1, 0, 1]);
}

#[test]
fn resize_rebuilds_chain_targets_and_viewport_before_composing() {
    let mut renderer = Renderer::new(chain(2, 800, 600), pipeline());
    let mut script = Script { images: 2, next_image: 0, out_of_date: false, suboptimal: false };
    let mut log = Log::default();
    renderer.add_batch(batch(0, 3)).unwrap();
    run_frame(&mut renderer, &mut script, Extent { width: 800, height: 600 }, false, &mut log)
        .unwrap();

    let mut log = Log::default();
    renderer.add_batch(batch(1, 6)).unwrap();
    let larger = Extent { width: 1024, height: 768 };
    run_frame(&mut renderer, &mut script, larger, true, &mut log).unwrap();

    let rebuilds: Vec<&FrameAction> =
        log.actions.iter().filter(|a| matches!(a, FrameAction::Recreate { .. })).collect();
    assert_eq!(rebuilds.len(), 1);
    match log.actions[0] {
        FrameAction::Recreate { info, plan } => {
            assert_eq!(info.image_extent, larger);
            assert_eq!(info.surface, 7);
            assert_eq!(info.image_format, 50);
            assert_eq!(plan, RecreatePlan { extent: larger, viewport: true });
            assert_eq!(
                plan.steps(),
                vec![RecreateStep::Swapchain, RecreateStep::Targets, RecreateStep::Viewport]
            );
        }
        other => panic!("the frame must start with the rebuild, not {:?}", other),
    }
    assert_eq!(log.actions[1], FrameAction::Device(PresentAction::AcquireImage));
    assert_eq!(log.streams.len(), 1);
    match log.streams[0][0] {
        RecordedOp::BeginRenderPass { target, .. } => {
            assert_eq!(target.image.extent, larger);
            assert_eq!(target.image.generation, 1);
            assert_eq!(target.depth.unwrap().extent, larger);
        }
        _ => panic!("a stream begins with its primary pass"),
    }
    assert_eq!(log.streams[0][1], RecordedOp::BindPipeline { pipeline: 99, layout: 12, frame_set: 13 });
    assert_eq!(renderer.pipeline().viewport, larger);
    assert_eq!(renderer.swapchain().info.image_extent, larger);
    assert!(renderer.framebuffers().iter().all(|t| t.image.extent == larger));
    assert!(!renderer.presenter().needs_recreate());

    let mut log = Log::default();
    renderer.add_batch(batch(1, 6)).unwrap();
    run_frame(&mut renderer, &mut script, larger, false, &mut log).unwrap();
    assert!(log.actions.iter().all(|a| !matches!(a, FrameAction::Recreate { .. })));
}

#[test]
fn out_of_date_acquire_drops_the_frame_and_flags_the_rebuild() {
    let extent = Extent { width: 800, height: 600 };
    let mut renderer = Renderer::new(chain(2, 800, 600), pipeline());
    let mut script = Script { images: 2, next_image: 0, out_of_date: true, suboptimal: false };
    let mut log = Log::default();
    renderer.add_batch(batch(0, 3)).unwrap();
    run_frame(&mut renderer, &mut script, extent, false, &mut log).unwrap();

    assert_eq!(
        log.actions,
        vec![
            FrameAction::Device(PresentAction::AcquireImage),
            FrameAction::Device(PresentAction::FrameDropped),
        ]
    );
    assert!(log.streams.is_empty());
    assert!(renderer.presenter().needs_recreate());
    assert!(renderer.is_idle());
    assert!(renderer.presenter().slots().iter().all(|slot| slot.fence.is_none()));
    assert_eq!(renderer.presenter().ticket(), None);

    let mut log = Log::default();
    renderer.add_batch(batch(0, 3)).unwrap();
    run_frame(&mut renderer, &mut script, extent, false, &mut log).unwrap();
    match log.actions[0] {
        FrameAction::Recreate { plan, .. } => {
            assert_eq!(plan, RecreatePlan { extent, viewport: false });
            assert_eq!(plan.steps(), vec![RecreateStep::Swapchain, RecreateStep::Targets]);
        }
        other => panic!("the next frame must start with the rebuild, not {:?}", other),
    }
    assert_eq!(log.streams.len(), 1);
    assert_eq!(renderer.pipeline().pipeline, 11);
    assert!(!renderer.presenter().needs_recreate());
}

#[test]
fn suboptimal_acquire_submits_and_rebuilds_next_frame() {
    let extent = Extent { width: 800, height: 600 };
    let mut renderer = Renderer::new(chain(2, 800, 600), pipeline());
    let mut script = Script { images: 2, next_image: 0, out_of_date: false, suboptimal: true };
    let mut log = Log::default();
    renderer.add_batch(batch(0, 3)).unwrap();
    run_frame(&mut renderer, &mut script, extent, false, &mut log).unwrap();
    assert_eq!(log.streams.len(), 1);
    assert!(renderer.presenter().needs_recreate());

    script.suboptimal = false;
    let mut log = Log::default();
    run_frame(&mut renderer, &mut script, extent, false, &mut log).unwrap();
    assert!(matches!(log.actions[0], FrameAction::Recreate { plan, .. } if !plan.viewport));
}

#[test]
fn empty_batch_is_rejected_before_any_action() {
    let mut renderer = Renderer::new(chain(2, 800, 600), pipeline());
    renderer.add_batch(batch(0, 3)).unwrap();
    assert_eq!(
        renderer.add_batch(batch(1, 0)),
        Err(FrameError::Compose(ComposeError::EmptyBatch { index: 1 }))
    );
    assert!(renderer.is_idle());
    assert!(renderer.command_buffer().is_none());
    assert_eq!(renderer.presenter().phase(), Phase::Idle);

    let mut script = Script { images: 2, next_image: 0, out_of_date: false, suboptimal: false };
    let mut log = Log::default();
    run_frame(&mut renderer, &mut script, Extent { width: 800, height: 600 }, false, &mut log)
        .unwrap();
    assert_eq!(log.streams.len(), 1);
    assert_eq!(log.streams[0].len(), 3 + 4);
}

#[test]
fn minimised_window_suppresses_the_rebuild() {
    let mut renderer = Renderer::new(chain(2, 800, 600), pipeline());
    let action = renderer.new_frame(Extent { width: 0, height: 600 }, true).unwrap();
    assert_eq!(action, FrameAction::Device(PresentAction::AcquireImage));
    assert!(renderer.presenter().needs_recreate());
    let dropped = renderer.update(FrameEvent::Device(PresentEvent::OutOfDate)).unwrap();
    assert_eq!(dropped, FrameAction::Device(PresentAction::FrameDropped));

    let action = renderer.new_frame(Extent { width: 640, height: 480 }, false).unwrap();
    match action {
        FrameAction::Recreate { info, plan } => {
            assert_eq!(info.image_extent, Extent { width: 640, height: 480 });
            assert!(plan.viewport);
        }
        other => panic!("expected the rebuild, got {:?}", other),
    }
}

#[test]
fn overlay_is_composed_on_top_of_its_own_image_only() {
    let mut renderer = Renderer::new(chain(2, 800, 600), pipeline());
    let overlay_layout = RenderPassLayout { color_format: 50, depth_format: None };
    let images: Vec<_> = renderer.framebuffers().iter().map(|t| t.image).collect();
    let overlay_targets = framebuffers(overlay_layout, &images).unwrap();
    renderer.add_batch(batch(0, 3)).unwrap();
    renderer
        .add_overlay(OverlayPass { stream: 500, target: overlay_targets[1], clear: ClearPolicy::Load })
        .unwrap();
    assert_eq!(
        renderer.add_overlay(OverlayPass {
            stream: 501,
            target: overlay_targets[0],
            clear: ClearPolicy::Clear
        }),
        Err(FrameError::Compose(ComposeError::OverlayClears))
    );

    let mut script = Script { images: 2, next_image: 1, out_of_date: false, suboptimal: false };
    let mut log = Log::default();
    run_frame(&mut renderer, &mut script, Extent { width: 800, height: 600 }, false, &mut log)
        .unwrap();
    let ops = &log.streams[0];
    assert_eq!(ops.len(), 3 + 4 + 3);
    assert_eq!(passes_of(ops, SubpassContents::Inline), 1);
    assert_eq!(passes_of(ops, SubpassContents::SecondaryCommandBuffers), 1);
    assert_eq!(
        ops[7],
        RecordedOp::BeginRenderPass {
            target: overlay_targets[1],
            clear: ClearPolicy::Load,
            contents: SubpassContents::SecondaryCommandBuffers,
        }
    );
    assert_eq!(ops[8], RecordedOp::ExecuteCommands { stream: 500 });
    assert_eq!(ops[9], RecordedOp::EndRenderPass);

    renderer.add_batch(batch(0, 3)).unwrap();
    let mut log = Log::default();
    run_frame(&mut renderer, &mut script, Extent { width: 800, height: 600 }, false, &mut log)
        .unwrap();
    assert_eq!(passes_of(&log.streams[0], SubpassContents::SecondaryCommandBuffers), 0);
}

#[test]
fn work_cannot_be_registered_or_a_frame_started_mid_frame() {
    let mut renderer = Renderer::new(chain(2, 800, 600), pipeline());
    let extent = Extent { width: 800, height: 600 };
    assert_eq!(
        renderer.update(FrameEvent::Device(PresentEvent::FrameRequested)),
        Err(FrameError::Present(PresentError::UnexpectedEvent))
    );
    assert!(renderer.is_idle());
    renderer.new_frame(extent, false).unwrap();
    assert_eq!(
        renderer.update(FrameEvent::Device(PresentEvent::FrameRequested)),
        Err(FrameError::Present(PresentError::UnexpectedEvent))
    );
    assert_eq!(renderer.add_batch(batch(0, 3)), Err(FrameError::FrameInProgress));
    assert_eq!(renderer.new_frame(extent, false), Err(FrameError::FrameInProgress));
    assert_eq!(
        renderer.update(FrameEvent::Recreated { image_count: 2, pipeline: 1 }),
        Err(FrameError::Present(PresentError::UnexpectedEvent))
    );
    assert_eq!(
        renderer.update(FrameEvent::Device(PresentEvent::WorkSubmitted)),
        Err(FrameError::Present(PresentError::UnexpectedEvent))
    );
    assert_eq!(
        renderer.update(FrameEvent::Device(PresentEvent::ImageAcquired { image: 2, suboptimal: false })),
        Err(FrameError::Present(PresentError::ImageOutOfRange))
    );
    assert_eq!(renderer.presenter().phase(), Phase::Acquiring);
}

#[test]
fn lost_surface_and_lost_device_end_the_frame_with_an_error() {
    let extent = Extent { width: 800, height: 600 };
    let mut renderer = Renderer::new(chain(2, 800, 600), pipeline());
    renderer.add_batch(batch(0, 3)).unwrap();
    assert!(matches!(renderer.new_frame(extent, true), Ok(FrameAction::Recreate { .. })));
    assert_eq!(
        renderer.update(FrameEvent::Device(PresentEvent::FrameRequested)),
        Err(FrameError::Present(PresentError::UnexpectedEvent))
    );
    assert_eq!(renderer.update(FrameEvent::RecreateFailed), Err(FrameError::SurfaceLost));
    assert!(renderer.is_idle());

    renderer.add_batch(batch(0, 3)).unwrap();
    renderer.new_frame(extent, false).unwrap();
    assert_eq!(
        renderer.update(FrameEvent::Device(PresentEvent::DeviceLost)),
        Err(FrameError::Present(PresentError::DeviceLost))
    );
    assert!(renderer.is_idle());
    assert!(renderer.command_buffer().is_none());
}

#[test]
fn rebuild_with_another_image_count_refits_the_slots() {
    let extent = Extent { width: 800, height: 600 };
    let mut renderer = Renderer::new(chain(2, 800, 600), pipeline());
    let mut script = Script { images: 2, next_image: 0, out_of_date: false, suboptimal: false };
    let mut log = Log::default();
    for _ in 0..2 {
        renderer.add_batch(batch(0, 3)).unwrap();
        run_frame(&mut renderer, &mut script, extent, false, &mut log).unwrap();
    }
    assert!(renderer.presenter().slots().iter().all(|slot| slot.fence.is_some()));
    assert_eq!(renderer.presenter().ticket(), Some(SubmissionTicket { rotation: 1, image: 1 }));

    script.images = 3;
    script.next_image = 2;
    renderer.add_batch(batch(0, 3)).unwrap();
    run_frame(&mut renderer, &mut script, extent, true, &mut log).unwrap();
    assert_eq!(renderer.presenter().slots().len(), 3);
    assert_eq!(renderer.framebuffers().len(), 3);
    assert_eq!(renderer.swapchain().image_count, 3);
    let fences: Vec<bool> = renderer.presenter().slots().iter().map(|s| s.fence.is_some()).collect();
    assert_eq!(fences, vec![true, true, true]);
    assert_eq!(renderer.presenter().slots()[2].fence, Some(SubmissionTicket { rotation: 0, image: 2 }));
    match log.actions.iter().rev().find(|a| matches!(a, FrameAction::Device(PresentAction::Submit { .. }))) {
        Some(FrameAction::Device(PresentAction::Submit { after, .. })) => assert_eq!(*after, None),
        _ => panic!("the frame must have been submitted"),
    }
    assert_eq!(renderer.frame_index(), 1);
}

#[test]
fn get_command_buffers_composes_one_stream_per_target() {
    let mut renderer = Renderer::new(chain(3, 640, 480), pipeline());
    renderer.add_batch(batch(0, 3)).unwrap();
    renderer.add_batch(batch(1, 9)).unwrap();
    let targets = renderer.framebuffers().clone();
    let streams = renderer.get_command_buffers(&targets);
    assert_eq!(streams.len(), 3);
    for (i, stream) in streams.iter().enumerate() {
        assert_eq!(stream.ops().len(), 3 + 8);
        assert_eq!(
            stream.ops()[0],
            RecordedOp::BeginRenderPass {
                target: targets[i],
                clear: ClearPolicy::Clear,
                contents: SubpassContents::Inline,
            }
        );
        assert_eq!(stream.count_passes(SubpassContents::Inline), 1);
    }
}

#[test]
fn registered_work_is_appended_to_a_builder() {
    let mut renderer = Renderer::new(chain(2, 800, 600), pipeline());
    renderer.add_batch(batch(0, 3)).unwrap();
    renderer.add_batch(batch(1, 6)).unwrap();
    let targets = renderer.framebuffers().clone();
    let overlay_layout = RenderPassLayout { color_format: 50, depth_format: None };
    let images: Vec<_> = targets.iter().map(|t| t.image).collect();
    let overlay_targets = framebuffers(overlay_layout, &images).unwrap();
    renderer
        .add_overlay(OverlayPass { stream: 9, target: overlay_targets[0], clear: ClearPolicy::Load })
        .unwrap();

    let mut builder = VkBuilder::new_once();
    assert_eq!(
        renderer.append_mesh_sec_renderpass_to_builder(&mut builder),
        Err(ComposeError::Record(RecordError::NotInPass))
    );
    builder.begin_render_pass(targets[0], ClearPolicy::Clear, SubpassContents::Inline).unwrap();
    assert_eq!(
        renderer.append_sec_renderpasses_to_builder(&mut builder, &targets[0]),
        Err(ComposeError::Record(RecordError::AlreadyInPass))
    );
    assert_eq!(renderer.append_sec_renderpasses_to_builder(&mut builder, &targets[1]), Ok(()));
    assert_eq!(renderer.append_mesh_sec_renderpass_to_builder(&mut builder), Ok(()));
    builder.end_render_pass().unwrap();
    assert_eq!(renderer.append_sec_renderpasses_to_builder(&mut builder, &targets[0]), Ok(()));
    let stream = builder.command_buffer().unwrap();
    let composed = renderer.get_command_buffers(&targets);
    let mut expected = composed[0].ops().clone();
    expected.remove(1);
    assert_eq!(stream.ops(), &expected);
    assert_eq!(stream.ops().len(), 1 + 8 + 1 + 3);
    assert_eq!(composed[1].ops().len(), 2 + 8 + 1);
}

#[test]
fn engine_waits_before_reuse_over_ten_thousand_frames() {
    let extent = Extent { width: 800, height: 600 };
    let mut renderer = Renderer::new(chain(3, 800, 600), pipeline());
    let mut pending: Vec<Option<(SubmissionTicket, bool)>> = vec![None; 3];
    let mut last: Option<SubmissionTicket> = None;
    let mut state: u64 = 0x9E37_79B9_7F4A_7C15;
    for _ in 0..10_000 {
        renderer.add_batch(batch(0, 3)).unwrap();
        let mut action = renderer.new_frame(extent, false).unwrap();
        loop {
            let event = match action {
                FrameAction::Device(PresentAction::AcquireImage) => {
                    state = state.wrapping_mul(6364136223846793005).wrapping_add(1442695040888963407);
                    PresentEvent::ImageAcquired { image: ((state >> 33) % 3) as usize, suboptimal: false }
                }
                FrameAction::Device(PresentAction::WaitFence { image, fence }) => {
                    assert_eq!(pending[image], Some((fence, false)));
                    pending[image] = Some((fence, true));
                    PresentEvent::FenceSignaled
                }
                FrameAction::Device(PresentAction::Submit { image, after, signal }) => {
                    assert!(pending[image].map_or(true, |(_, signaled)| signaled));
                    assert_eq!(after, last);
                    pending[image] = Some((signal, false));
                    last = Some(signal);
                    PresentEvent::WorkSubmitted
                }
                FrameAction::Device(PresentAction::Present { .. }) => {
                    PresentEvent::PresentQueued { out_of_date: false }
                }
                FrameAction::Device(PresentAction::FrameDone) => break,
                other => panic!("nothing asks for {:?}", other),
            };
            action = renderer.update(FrameEvent::Device(event)).unwrap();
        }
        assert_eq!(renderer.presenter().slots().len(), 3);
    }
}
