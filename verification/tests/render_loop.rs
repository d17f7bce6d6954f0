use vkguide::barriers::ImageLayout;
use vkguide::engine::AcquireOutcome;
use vkguide::engine::Engine;
use vkguide::engine::FrameOutcome;
use vkguide::engine::Phase;
use vkguide::engine::PresentOutcome;
use vkguide::engine::RecordStep;
use vkguide::engine::RecordTarget;
use vkguide::engine::RenderError;
use vkguide::frames::FenceWait;
use vkguide::swapchain::Extent2D;
use vkguide::swapchain::Swapchain;
use vkguide::swapchain::SwapchainPlan;

fn test_swapchain(images: u32) -> Swapchain {
    let plan = SwapchainPlan {
        format: 44,
        color_space: 0,
        image_count: images,
        extent: Extent2D { width: 800, height: 600 },
        pre_transform: 1,
        present_mode: 2,
    };
    Swapchain::new(&plan, images)
}

#[test]
fn five_frames_cycle_both_slots() {
    let mut engine = Engine::new(test_swapchain(3));
    for n in 0..5u32 {
        let outcome = engine
            .render(
                FenceWait::Signaled,
                AcquireOutcome::Success { image_index: n % 3 },
                PresentOutcome::Success,
            )
            .expect("a clean frame iteration should succeed");
        assert_eq!(outcome, FrameOutcome::Drawn { image_index: n % 3 });
    }
    // 5 mod 2 = 1: the loop ends one slot into its third time around.
    assert_eq!(engine.frames().frame_index(), 1);
    assert_eq!(engine.frames().slot(0).uses(), 3);
    assert_eq!(engine.frames().slot(1).uses(), 2);
    assert!(engine.frames().slot(0).uses() >= 2);
    assert!(engine.frames().slot(1).uses() >= 2);
}

#[test]
fn stale_acquire_skips_frame_and_flags_recreation() {
    let mut engine = Engine::new(test_swapchain(3));
    let index_before = engine.frames().frame_index();
    let outcome = engine
        .render(FenceWait::Signaled, AcquireOutcome::OutOfDate, PresentOutcome::Success)
        .expect("a stale acquire is not fatal");
    assert_eq!(outcome, FrameOutcome::SkippedStale);
    assert!(engine.needs_resize());
    // The frame ring's state survives the skip: no advance, slots intact.
    assert_eq!(engine.frames().frame_index(), index_before);
    assert!(!engine.frames().slot(0).in_flight());
    assert!(!engine.frames().slot(1).in_flight());
    // After the swapchain is rebuilt the loop continues where it stood.
    engine.install_swapchain(test_swapchain(3));
    assert!(!engine.needs_resize());
    let outcome = engine
        .render(
            FenceWait::Signaled,
            AcquireOutcome::Success { image_index: 0 },
            PresentOutcome::Success,
        )
        .expect("the next iteration should draw");
    assert_eq!(outcome, FrameOutcome::Drawn { image_index: 0 });
}

#[test]
fn suboptimal_acquire_skips_like_out_of_date() {
    let mut engine = Engine::new(test_swapchain(3));
    let outcome = engine
        .render(
            FenceWait::Signaled,
            AcquireOutcome::Suboptimal { image_index: 1 },
            PresentOutcome::Success,
        )
        .expect("a suboptimal acquire is not fatal");
    assert_eq!(outcome, FrameOutcome::SkippedStale);
    assert!(engine.needs_resize());
    assert_eq!(engine.frames().frame_index(), 0);
}

#[test]
fn stale_present_flags_recreation_but_frame_counts() {
    let mut engine = Engine::new(test_swapchain(3));
    let outcome = engine
        .render(
            FenceWait::Signaled,
            AcquireOutcome::Success { image_index: 2 },
            PresentOutcome::OutOfDate,
        )
        .expect("a stale present is not fatal");
    assert_eq!(outcome, FrameOutcome::Drawn { image_index: 2 });
    assert!(engine.needs_resize());
    // The present still advanced the ring: the frame was fully submitted.
    assert_eq!(engine.frames().frame_index(), 1);
}

#[test]
fn fence_wait_failure_is_device_loss() {
    let mut engine = Engine::new(test_swapchain(3));
    let err = engine
        .render(
            FenceWait::Failed,
            AcquireOutcome::Success { image_index: 0 },
            PresentOutcome::Success,
        )
        .expect_err("a failed fence wait is fatal");
    assert_eq!(err, RenderError::DeviceLost);
}

#[test]
fn fatal_acquire_failure_is_surfaced_not_skipped() {
    let mut engine = Engine::new(test_swapchain(3));
    let err = engine
        .render(FenceWait::Signaled, AcquireOutcome::Failed, PresentOutcome::Success)
        .expect_err("a non-stale acquire failure must be surfaced");
    assert_eq!(err, RenderError::AcquireFailed);
    // The failed iteration never advanced the ring and never flagged a
    // recreation: this was not a staleness skip.
    assert_eq!(engine.frames().frame_index(), 0);
    assert!(!engine.needs_resize());
}

#[test]
fn fatal_present_failure_is_surfaced_not_drawn() {
    let mut engine = Engine::new(test_swapchain(3));
    let err = engine
        .render(
            FenceWait::Signaled,
            AcquireOutcome::Success { image_index: 0 },
            PresentOutcome::Failed,
        )
        .expect_err("a non-stale present failure must be surfaced");
    assert_eq!(err, RenderError::PresentFailed);
    // The ring did not advance past the failed presentation.
    assert_eq!(engine.frames().frame_index(), 0);
}

#[test]
fn out_of_range_image_index_is_an_error() {
    let mut engine = Engine::new(test_swapchain(3));
    let err = engine
        .render(
            FenceWait::Signaled,
            AcquireOutcome::Success { image_index: 9 },
            PresentOutcome::Success,
        )
        .expect_err("an image the swapchain does not have must be refused");
    assert_eq!(err, RenderError::InvalidImageIndex);
}

#[test]
fn render_semaphore_follows_acquired_image_not_frame_slot() {
    let mut engine = Engine::new(test_swapchain(4));
    engine.begin_frame(FenceWait::Signaled).expect("begin should succeed");
    engine
        .handle_acquire(AcquireOutcome::Success { image_index: 2 })
        .expect("acquire should succeed");
    let _plan = engine.record_commands();
    let semaphore_index = engine.submit_frame();
    // The frame slot is 0, but the render-complete semaphore is the one of
    // the image the most recent acquire returned.
    assert_eq!(engine.frames().frame_index(), 0);
    assert_eq!(semaphore_index, 2);
    engine.handle_present(PresentOutcome::Success).expect("present should succeed");
    assert_eq!(engine.frames().frame_index(), 1);
}

#[test]
fn command_plan_brackets_work_with_transitions() {
    let mut engine = Engine::new(test_swapchain(3));
    engine.begin_frame(FenceWait::Signaled).expect("begin should succeed");
    engine
        .handle_acquire(AcquireOutcome::Success { image_index: 0 })
        .expect("acquire should succeed");
    let steps = engine.record_commands();
    let expected = vec![
        RecordStep::Transition {
            target: RecordTarget::DrawImage,
            from: ImageLayout::Undefined,
            to: ImageLayout::General,
        },
        RecordStep::DispatchBackground,
        RecordStep::Transition {
            target: RecordTarget::DrawImage,
            from: ImageLayout::General,
            to: ImageLayout::ColorAttachment,
        },
        RecordStep::Transition {
            target: RecordTarget::DepthImage,
            from: ImageLayout::Undefined,
            to: ImageLayout::DepthAttachment,
        },
        RecordStep::DrawGeometry,
        RecordStep::Transition {
            target: RecordTarget::DrawImage,
            from: ImageLayout::ColorAttachment,
            to: ImageLayout::TransferSrc,
        },
        RecordStep::Transition {
            target: RecordTarget::SwapchainImage,
            from: ImageLayout::Undefined,
            to: ImageLayout::TransferDst,
        },
        RecordStep::CopyDrawToSwapchain,
        RecordStep::Transition {
            target: RecordTarget::SwapchainImage,
            from: ImageLayout::TransferDst,
            to: ImageLayout::ColorAttachment,
        },
        RecordStep::DrawGui,
        RecordStep::Transition {
            target: RecordTarget::SwapchainImage,
            from: ImageLayout::ColorAttachment,
            to: ImageLayout::PresentSrc,
        },
    ];
    assert_eq!(steps, expected);
    assert_eq!(engine.phase(), Phase::Submit);
}

#[test]
fn occlusion_pauses_rendering_without_teardown() {
    let mut engine = Engine::new(test_swapchain(3));
    assert!(engine.is_rendering());
    engine.set_occluded(true);
    assert!(!engine.is_rendering());
    engine.set_occluded(false);
    assert!(engine.is_rendering());
    // Nothing was torn down meanwhile.
    assert_eq!(engine.swapchain().image_count(), 3);
}

#[test]
fn resize_defers_recreation_to_next_iteration() {
    let mut engine = Engine::new(test_swapchain(3));
    engine.resize();
    assert!(engine.needs_resize());
    engine.install_swapchain(test_swapchain(5));
    assert!(!engine.needs_resize());
    assert_eq!(engine.swapchain().image_count(), 5);
}
