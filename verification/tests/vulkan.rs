use vers::vulkan::device::unique_queue_families;
use vers::vulkan::physical_device::{
    device_name, score_device, select_device, vram_size, DeviceCandidate, DeviceKind, MemoryHeap,
    PhysicalDeviceError, QueueFamilyIndices, QueueFamilySearch,
};
use vers::vulkan::renderer::{
    acquire_action, needs_command_buffers, present_action, AcquireAction, AcquireResult, FrameAction,
    FrameEvent, FrameLoop, FramePhase, PresentAction, PresentResult,
};
use vers::vulkan::swapchain::{
    choose_extent, choose_format, choose_image_count, choose_present_mode, choose_sharing, plan_swapchain,
    rebuild_failure, rebuild_skipped, ColorSpace, Extent2D, Format, PresentMode, SharingMode,
    SurfaceCapabilities, SurfaceFormat, SwapchainError,
};

fn qfi(graphics: u32, present: u32) -> QueueFamilyIndices {
    QueueFamilyIndices { graphics, present }
}

const GIB: u64 = 1 << 30;

#[test]
fn score_device_ranks_kind_then_vram() {
    assert_eq!(score_device(DeviceKind::DiscreteGpu, 0), 4u128 << 64);
    assert_eq!(score_device(DeviceKind::Cpu, 5), (1u128 << 64) + 5);
    assert_eq!(score_device(DeviceKind::Other, 7), 7);
    assert_eq!(score_device(DeviceKind::IntegratedGpu, u64::MAX), (3u128 << 64) + u64::MAX as u128);
}

#[test]
fn discrete_beats_integrated_beats_others() {
    // The kind decides, whatever the memory.
    assert!(score_device(DeviceKind::DiscreteGpu, 0) > score_device(DeviceKind::IntegratedGpu, u64::MAX));
    assert!(score_device(DeviceKind::IntegratedGpu, 0) > score_device(DeviceKind::VirtualGpu, u64::MAX));
    assert!(score_device(DeviceKind::VirtualGpu, 0) > score_device(DeviceKind::Cpu, u64::MAX));
    assert!(score_device(DeviceKind::Cpu, 0) > score_device(DeviceKind::Other, u64::MAX));
    // Same kind: more video memory wins.
    assert!(score_device(DeviceKind::DiscreteGpu, 8 * GIB) > score_device(DeviceKind::DiscreteGpu, 4 * GIB));
}

#[test]
fn vram_sums_device_local_heaps() {
    let heaps = [
        MemoryHeap { size: 8 * GIB, device_local: true },
        MemoryHeap { size: 16 * GIB, device_local: false },
        MemoryHeap { size: 256 << 20, device_local: true },
    ];
    assert_eq!(vram_size(&heaps), 8 * GIB + (256 << 20));
    assert_eq!(vram_size(&[]), 0);
    let huge = [MemoryHeap { size: u64::MAX, device_local: true }, MemoryHeap { size: 1, device_local: true }];
    assert_eq!(vram_size(&huge), u64::MAX);
}

#[test]
fn device_kind_from_code() {
    assert_eq!(DeviceKind::from_code(0), DeviceKind::Other);
    assert_eq!(DeviceKind::from_code(1), DeviceKind::IntegratedGpu);
    assert_eq!(DeviceKind::from_code(2), DeviceKind::DiscreteGpu);
    assert_eq!(DeviceKind::from_code(3), DeviceKind::VirtualGpu);
    assert_eq!(DeviceKind::from_code(4), DeviceKind::Cpu);
    assert_eq!(DeviceKind::from_code(99), DeviceKind::Other);
}

#[test]
fn select_device_picks_highest_suitable_score() {
    let candidates = vec![
        DeviceCandidate { kind: DeviceKind::DiscreteGpu, vram_bytes: 24 * GIB, queue_families: None },
        DeviceCandidate { kind: DeviceKind::IntegratedGpu, vram_bytes: 32 * GIB, queue_families: Some(qfi(0, 0)) },
        DeviceCandidate { kind: DeviceKind::DiscreteGpu, vram_bytes: 4 * GIB, queue_families: Some(qfi(1, 2)) },
        DeviceCandidate { kind: DeviceKind::DiscreteGpu, vram_bytes: 8 * GIB, queue_families: Some(qfi(0, 0)) },
        DeviceCandidate { kind: DeviceKind::Cpu, vram_bytes: 64 * GIB, queue_families: Some(qfi(0, 0)) },
    ];
    assert_eq!(select_device(&candidates), Ok(3));
}

#[test]
fn select_device_keeps_first_on_tie() {
    let candidates = vec![
        DeviceCandidate { kind: DeviceKind::VirtualGpu, vram_bytes: 100, queue_families: Some(qfi(0, 1)) },
        DeviceCandidate { kind: DeviceKind::VirtualGpu, vram_bytes: 100, queue_families: Some(qfi(0, 0)) },
    ];
    assert_eq!(select_device(&candidates), Ok(0));
}

#[test]
fn select_device_without_suitable_device_fails() {
    let candidates = vec![DeviceCandidate { kind: DeviceKind::DiscreteGpu, vram_bytes: GIB, queue_families: None }];
    assert_eq!(select_device(&candidates), Err(PhysicalDeviceError::NoSuitableDevice));
    assert_eq!(select_device(&Vec::new()), Err(PhysicalDeviceError::NoSuitableDevice));
}

fn search(families: &[(bool, bool)]) -> (Option<QueueFamilyIndices>, u32) {
    let mut s = QueueFamilySearch::new();
    for &(g, p) in families {
        if s.observe(g, p) {
            break;
        }
    }
    (s.finish(), s.next_index())
}

#[test]
fn queue_family_search_same_family() {
    assert_eq!(search(&[(true, true), (true, true)]), (Some(qfi(0, 0)), 1));
}

#[test]
fn queue_family_search_later_graphics_family_replaces_earlier() {
    // Graphics seen at 0 and 1, present first at 2: the last graphics family before the stop is kept.
    assert_eq!(search(&[(true, false), (true, false), (false, true), (true, true)]), (Some(qfi(1, 2)), 3));
}

#[test]
fn queue_family_search_present_first() {
    assert_eq!(search(&[(false, true), (false, true), (true, false)]), (Some(qfi(2, 1)), 3));
}

#[test]
fn queue_family_search_missing_present() {
    assert_eq!(search(&[(true, false), (true, false)]), (None, 2));
    assert_eq!(search(&[]), (None, 0));
}

#[test]
fn device_name_stops_at_nul() {
    let mut raw = [0u8; 16];
    raw[..9].copy_from_slice(b"GPU \xffname");
    assert_eq!(device_name(&raw), "GPU \u{fffd}name");
    assert_eq!(device_name(b"RTX\0junk"), "RTX");
    assert_eq!(device_name(b"no terminator"), "<unknown>");
    assert_eq!(device_name(b"\0"), "");
}

#[test]
fn unique_queue_families_deduplicates() {
    assert_eq!(unique_queue_families(qfi(0, 0)), vec![0]);
    let mut both = unique_queue_families(qfi(3, 0));
    both.sort();
    assert_eq!(both, vec![0, 3]);
}

fn srgb() -> SurfaceFormat {
    SurfaceFormat { format: Format::B8G8R8A8Srgb, color_space: ColorSpace::SrgbNonlinear }
}

#[test]
fn choose_format_prefers_bgra_srgb() {
    let other = SurfaceFormat { format: Format::Other(44), color_space: ColorSpace::SrgbNonlinear };
    let srgb_other_space = SurfaceFormat { format: Format::B8G8R8A8Srgb, color_space: ColorSpace::Other(1000104002) };
    assert_eq!(choose_format(&[other, srgb_other_space, srgb()]), Ok(srgb()));
    assert_eq!(choose_format(&[other, srgb_other_space]), Ok(other));
    assert_eq!(choose_format(&[]), Err(SwapchainError::NoSuitableFormat));
}

#[test]
fn choose_present_mode_prefers_mailbox() {
    assert_eq!(choose_present_mode(&[PresentMode::Fifo, PresentMode::Mailbox]), PresentMode::Mailbox);
    assert_eq!(choose_present_mode(&[PresentMode::Immediate, PresentMode::FifoRelaxed]), PresentMode::Fifo);
    assert_eq!(choose_present_mode(&[]), PresentMode::Fifo);
}

fn caps(current: Extent2D) -> SurfaceCapabilities {
    SurfaceCapabilities {
        min_image_count: 2,
        max_image_count: 3,
        current_extent: current,
        min_image_extent: Extent2D { width: 100, height: 50 },
        max_image_extent: Extent2D { width: 1920, height: 1080 },
    }
}

#[test]
fn choose_extent_uses_fixed_surface_extent() {
    let fixed = Extent2D { width: 800, height: 600 };
    assert_eq!(choose_extent(&caps(fixed), (1, 1)), Ok(fixed));
    assert_eq!(choose_extent(&caps(Extent2D { width: 0, height: 600 }), (800, 600)), Err(SwapchainError::ZeroExtent));
}

#[test]
fn choose_extent_clamps_window_size() {
    let free = Extent2D { width: u32::MAX, height: u32::MAX };
    assert_eq!(choose_extent(&caps(free), (4000, 10)), Ok(Extent2D { width: 1920, height: 50 }));
    assert_eq!(choose_extent(&caps(free), (640, 480)), Ok(Extent2D { width: 640, height: 480 }));
    assert_eq!(choose_extent(&caps(free), (0, 480)), Err(SwapchainError::ZeroExtent));
}

#[test]
fn choose_image_count_adds_one_within_maximum() {
    let mut c = caps(Extent2D { width: 1, height: 1 });
    assert_eq!(choose_image_count(&c), 3);
    c.max_image_count = 2;
    assert_eq!(choose_image_count(&c), 2);
    c.max_image_count = 0;
    assert_eq!(choose_image_count(&c), 3);
}

#[test]
fn choose_sharing_exclusive_or_concurrent() {
    assert_eq!(choose_sharing(qfi(1, 1)), (SharingMode::Exclusive, vec![]));
    assert_eq!(choose_sharing(qfi(0, 2)), (SharingMode::Concurrent, vec![0, 2]));
}

#[test]
fn plan_swapchain_reports_format_error_first() {
    let zero = caps(Extent2D { width: 0, height: 0 });
    let r = plan_swapchain(&zero, &[], &[], (0, 0), qfi(0, 0));
    assert_eq!(r.unwrap_err(), SwapchainError::NoSuitableFormat);
    let r = plan_swapchain(&zero, &[srgb()], &[], (0, 0), qfi(0, 0));
    assert_eq!(r.unwrap_err(), SwapchainError::ZeroExtent);
}

#[test]
fn plan_swapchain_decides_all_parameters() {
    let c = caps(Extent2D { width: 1280, height: 720 });
    let plan = plan_swapchain(&c, &[srgb()], &[PresentMode::Mailbox], (10, 10), qfi(0, 1)).unwrap();
    assert_eq!(plan.format, srgb());
    assert_eq!(plan.present_mode, PresentMode::Mailbox);
    assert_eq!(plan.extent, Extent2D { width: 1280, height: 720 });
    assert_eq!(plan.min_image_count, 3);
    assert_eq!(plan.sharing, SharingMode::Concurrent);
    assert_eq!(plan.queue_family_indices, vec![0, 1]);
    let config = plan.config(4);
    assert_eq!(config.image_count, 4);
    assert_eq!(config.extent, plan.extent);
}

#[test]
fn rebuild_is_skipped_for_minimized_window() {
    assert!(rebuild_skipped((0, 600)));
    assert!(rebuild_skipped((800, 0)));
    assert!(!rebuild_skipped((800, 600)));
}

#[test]
fn acquire_action_decisions() {
    assert_eq!(
        acquire_action(AcquireResult::Acquired { image_index: 2, suboptimal: false }),
        AcquireAction::Render { image_index: 2 }
    );
    assert_eq!(acquire_action(AcquireResult::Acquired { image_index: 2, suboptimal: true }), AcquireAction::SkipFrame);
    assert_eq!(acquire_action(AcquireResult::OutOfDate), AcquireAction::SkipFrame);
    assert_eq!(acquire_action(AcquireResult::Failed(-4)), AcquireAction::Fail(-4));
}

#[test]
fn present_action_decisions() {
    assert_eq!(present_action(PresentResult::Presented { suboptimal: false }), PresentAction::Advance);
    assert_eq!(present_action(PresentResult::Presented { suboptimal: true }), PresentAction::RecreateThenAdvance);
    assert_eq!(present_action(PresentResult::OutOfDate), PresentAction::RecreateThenAdvance);
    assert_eq!(present_action(PresentResult::Failed(-3)), PresentAction::Fail(-3));
}

#[test]
fn command_buffers_reallocated_when_count_changes() {
    assert!(needs_command_buffers(2, 3));
    assert!(!needs_command_buffers(3, 3));
}

#[test]
fn codes_convert_both_ways() {
    assert_eq!(Format::from_code(50), Format::B8G8R8A8Srgb);
    assert_eq!(Format::from_code(44), Format::Other(44));
    assert_eq!(Format::B8G8R8A8Srgb.code(), 50);
    assert_eq!(ColorSpace::from_code(0), ColorSpace::SrgbNonlinear);
    assert_eq!(ColorSpace::from_code(1000104002).code(), 1000104002);
    assert_eq!(PresentMode::from_code(1), PresentMode::Mailbox);
    assert_eq!(PresentMode::from_code(2), PresentMode::Fifo);
    assert_eq!(PresentMode::from_code(1000111000), PresentMode::Other(1000111000));
    assert_eq!(PresentMode::FifoRelaxed.code(), 3);
}

#[test]
fn rebuild_failure_skips_minimized_surface() {
    assert_eq!(rebuild_failure(SwapchainError::ZeroExtent), Ok(false));
    assert_eq!(rebuild_failure(SwapchainError::NoSuitableFormat), Err(SwapchainError::NoSuitableFormat));
    assert_eq!(rebuild_failure(SwapchainError::Vulkan(-4)), Err(SwapchainError::Vulkan(-4)));
}

#[test]
fn plan_swapchain_without_formats_ignores_extent_bounds() {
    let mut c = caps(Extent2D { width: u32::MAX, height: u32::MAX });
    c.min_image_extent = Extent2D { width: 2000, height: 2000 };
    let r = plan_swapchain(&c, &[], &[], (640, 480), qfi(0, 0));
    assert_eq!(r.unwrap_err(), SwapchainError::NoSuitableFormat);
}

fn ok_present() -> FrameEvent {
    FrameEvent::Presented(PresentResult::Presented { suboptimal: false })
}

fn acquired(image_index: u32) -> FrameEvent {
    FrameEvent::Acquired(AcquireResult::Acquired { image_index, suboptimal: false })
}

#[test]
fn frame_loop_draws_and_wraps_around() {
    let mut l = FrameLoop::new(2, 2, 6);
    let mut slots = Vec::new();
    for _ in 0..3 {
        let slot = l.state().slot;
        slots.push(slot);
        assert_eq!(l.step(FrameEvent::Begin), FrameAction::WaitFence { slot });
        assert_eq!(l.step(FrameEvent::FenceSignaled), FrameAction::Acquire { slot });
        assert_eq!(l.step(acquired(5)), FrameAction::Record { slot, image: 5 });
        assert_eq!(l.step(FrameEvent::Recorded), FrameAction::Submit { slot, image: 5 });
        assert_eq!(l.step(FrameEvent::Submitted), FrameAction::Present { slot, image: 5 });
        assert_eq!(l.step(ok_present()), FrameAction::Finish { needs_recreate: false });
    }
    assert_eq!(slots, vec![0, 1, 0]);
    assert!(!FrameLoop::new(2, 0, 2).accepts(FrameEvent::Begin));
    // An image without a framebuffer is out of range.
    l.step(FrameEvent::Begin);
    l.step(FrameEvent::FenceSignaled);
    assert!(!l.accepts(acquired(6)));
    assert_eq!(l.state().slot, 1);
}

#[test]
fn frame_loop_rebuilds_on_next_frame_after_skip() {
    let mut l = FrameLoop::new(3, 3, 3);
    l.step(FrameEvent::Begin);
    l.step(FrameEvent::FenceSignaled);
    assert_eq!(l.step(FrameEvent::Acquired(AcquireResult::OutOfDate)), FrameAction::Finish { needs_recreate: true });
    assert_eq!(l.state().slot, 0);
    assert!(l.state().rebuild_pending);
    assert!(!l.accepts(FrameEvent::Recorded));
    assert_eq!(l.step(FrameEvent::Begin), FrameAction::RebuildSwapchain);
    // Still minimized: the frame ends, the rebuild stays owed.
    assert_eq!(l.step(FrameEvent::RebuildSkipped), FrameAction::Finish { needs_recreate: true });
    assert_eq!(l.step(FrameEvent::Begin), FrameAction::RebuildSwapchain);
    assert!(!l.accepts(FrameEvent::SwapchainRebuilt { command_buffers: 0, framebuffers: 3 }));
    assert_eq!(
        l.step(FrameEvent::SwapchainRebuilt { command_buffers: 2, framebuffers: 2 }),
        FrameAction::WaitFence { slot: 0 }
    );
    assert_eq!(l.state().command_buffers, 2);
    assert_eq!(l.state().framebuffers, 2);
    assert!(!l.state().rebuild_pending);
}

#[test]
fn frame_loop_rebuilds_after_suboptimal_present() {
    let mut l = FrameLoop::new(2, 2, 2);
    l.step(FrameEvent::Begin);
    l.step(FrameEvent::FenceSignaled);
    l.step(acquired(0));
    l.step(FrameEvent::Recorded);
    l.step(FrameEvent::Submitted);
    let a = l.step(FrameEvent::Presented(PresentResult::OutOfDate));
    assert_eq!(a, FrameAction::RebuildSwapchain);
    assert_eq!(l.state().phase, FramePhase::RebuildingAfterPresent);
    assert_eq!(l.step(FrameEvent::RebuildSkipped), FrameAction::Finish { needs_recreate: true });
    assert_eq!(l.state().slot, 1);
    assert!(l.state().rebuild_pending);
}

#[test]
fn frame_loop_failures_keep_slot() {
    let mut l = FrameLoop::new(2, 2, 2);
    l.step(FrameEvent::Begin);
    l.step(FrameEvent::FenceSignaled);
    assert_eq!(l.step(FrameEvent::Acquired(AcquireResult::Failed(-4))), FrameAction::Fail(-4));
    assert_eq!(l.state().slot, 0);
    l.step(FrameEvent::Begin);
    l.step(FrameEvent::FenceSignaled);
    l.step(acquired(1));
    assert_eq!(l.step(FrameEvent::StepFailed), FrameAction::Abandon);
    assert_eq!(l.state().phase, FramePhase::Idle);
    assert_eq!(l.state().slot, 0);
    l.step(FrameEvent::Begin);
    l.step(FrameEvent::FenceSignaled);
    l.step(acquired(1));
    l.step(FrameEvent::Recorded);
    l.step(FrameEvent::Submitted);
    assert_eq!(l.step(FrameEvent::Presented(PresentResult::Failed(-3))), FrameAction::Fail(-3));
    assert_eq!(l.state().slot, 0);
}
