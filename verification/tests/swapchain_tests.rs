use rust_cube::renderer::swapchain::{
    choose_present_mode, choose_surface_format, extent_allows_rebuild, plan_swapchain,
    AcquireOutcome, AcquireStep, CompositeAlphaKind, PresentModeKind, PresentOutcome, PresentStep,
    SurfaceCapabilitiesInfo, SurfaceFormat, SwapchainPlanError, SwapchainState,
    COLOR_SPACE_EXTENDED_SRGB_NONLINEAR, FORMAT_B8G8R8A8_SRGB, FRAMES_IN_FLIGHT,
};

fn fmt(format: i32, color_space: i32) -> SurfaceFormat {
    SurfaceFormat { format, color_space }
}

fn caps(min_image_count: u32, alpha: u32, modes: Vec<PresentModeKind>) -> SurfaceCapabilitiesInfo {
    SurfaceCapabilitiesInfo {
        min_image_count,
        supported_composite_alpha: alpha,
        compatible_present_modes: modes,
    }
}

#[test]
fn present_mode_prefers_mailbox() {
    let modes = vec![PresentModeKind::Immediate, PresentModeKind::Fifo, PresentModeKind::Mailbox];
    assert_eq!(choose_present_mode(&modes), PresentModeKind::Mailbox);
}

#[test]
fn present_mode_falls_back_to_fifo() {
    let modes = vec![PresentModeKind::Immediate, PresentModeKind::FifoRelaxed, PresentModeKind::Fifo];
    assert_eq!(choose_present_mode(&modes), PresentModeKind::Fifo);
}

#[test]
fn present_mode_takes_first_of_others() {
    let modes = vec![PresentModeKind::FifoRelaxed, PresentModeKind::Immediate];
    assert_eq!(choose_present_mode(&modes), PresentModeKind::FifoRelaxed);
}

#[test]
fn present_mode_empty_list_is_fifo() {
    assert_eq!(choose_present_mode(&vec![]), PresentModeKind::Fifo);
}

#[test]
fn surface_format_empty_is_none() {
    assert_eq!(choose_surface_format(&vec![]), None);
}

#[test]
fn surface_format_prefers_bgra_srgb_extended() {
    let formats = vec![fmt(44, 0), fmt(50, 0), fmt(FORMAT_B8G8R8A8_SRGB, COLOR_SPACE_EXTENDED_SRGB_NONLINEAR), fmt(50, 1000104014)];
    assert_eq!(choose_surface_format(&formats), Some(2));
}

#[test]
fn surface_format_defaults_to_first() {
    let formats = vec![fmt(44, 0), fmt(50, 0)];
    assert_eq!(choose_surface_format(&formats), Some(0));
}

#[test]
fn plan_fails_without_formats() {
    let r = plan_swapchain(&caps(2, 1, vec![]), &vec![], [800, 600]);
    assert!(matches!(r, Err(SwapchainPlanError::NoSurfaceFormat)));
}

#[test]
fn plan_fails_without_composite_alpha() {
    let r = plan_swapchain(&caps(2, 0x10, vec![]), &vec![fmt(44, 0)], [800, 600]);
    assert!(matches!(r, Err(SwapchainPlanError::NoCompositeAlpha)));
}

#[test]
fn plan_fails_on_image_count_overflow() {
    let r = plan_swapchain(&caps(u32::MAX, 1, vec![]), &vec![fmt(44, 0)], [800, 600]);
    assert!(matches!(r, Err(SwapchainPlanError::ImageCountOverflow)));
}

#[test]
fn plan_takes_lowest_composite_alpha_and_one_more_image() {
    let formats = vec![fmt(44, 0), fmt(50, 1000104014)];
    let plan = plan_swapchain(&caps(2, 0b0110, vec![PresentModeKind::Mailbox]), &formats, [1024, 768]).unwrap();
    assert_eq!(plan.format_index, 1);
    assert_eq!(plan.min_image_count, 3);
    assert_eq!(plan.composite_alpha, CompositeAlphaKind::PreMultiplied);
    assert_eq!(plan.present_mode, PresentModeKind::Mailbox);
    assert_eq!(plan.image_extent, [1024, 768]);
}

#[test]
fn plan_composite_alpha_each_bit() {
    let f = vec![fmt(44, 0)];
    let pick = |bits: u32| plan_swapchain(&caps(1, bits, vec![]), &f, [1, 1]).unwrap().composite_alpha;
    assert_eq!(pick(0b1111), CompositeAlphaKind::Opaque);
    assert_eq!(pick(0b1100), CompositeAlphaKind::PostMultiplied);
    assert_eq!(pick(0b1000 | 0x100), CompositeAlphaKind::Inherit);
}

#[test]
fn rebuild_needs_nonzero_extent() {
    assert!(extent_allows_rebuild([800, 600]));
    assert!(!extent_allows_rebuild([0, 600]));
    assert!(!extent_allows_rebuild([800, 0]));
}

#[test]
fn fresh_state() {
    let s: SwapchainState<u32> = SwapchainState::new();
    assert_eq!(s.current_frame(), 0);
    assert_eq!(s.image_index(), 0);
    assert!(!s.recreate_requested());
    assert!(s.current_frame_end().is_none());
    assert_eq!(FRAMES_IN_FLIGHT, 2);
}

#[test]
fn resize_request_taken_once() {
    let mut s: SwapchainState<u32> = SwapchainState::new();
    assert!(!s.begin_acquire());
    s.request_recreate();
    assert!(s.recreate_requested());
    assert!(s.begin_acquire());
    assert!(!s.begin_acquire());
}

#[test]
fn frames_rotate_and_fences_come_back() {
    let mut s: SwapchainState<u32> = SwapchainState::new();
    let step = s.finish_acquire(AcquireOutcome::Acquired { image_index: 2, suboptimal: false });
    assert!(matches!(step, AcquireStep::Proceed { previous_frame_end: None }));
    assert_eq!(s.image_index(), 2);
    assert_eq!(s.finish_present(PresentOutcome::Flushed(7)), PresentStep::Presented);
    assert_eq!(s.current_frame(), 1);
    let step = s.finish_acquire(AcquireOutcome::Acquired { image_index: 0, suboptimal: false });
    assert!(matches!(step, AcquireStep::Proceed { previous_frame_end: None }));
    assert_eq!(s.finish_present(PresentOutcome::Flushed(8)), PresentStep::Presented);
    assert_eq!(s.current_frame(), 0);
    assert_eq!(s.current_frame_end(), Some(&7));
    let step = s.finish_acquire(AcquireOutcome::Acquired { image_index: 1, suboptimal: false });
    assert!(matches!(step, AcquireStep::Proceed { previous_frame_end: Some(7) }));
    assert!(s.current_frame_end().is_none());
}

#[test]
fn suboptimal_image_is_drawn_then_rebuilt() {
    let mut s: SwapchainState<u32> = SwapchainState::new();
    let step = s.finish_acquire(AcquireOutcome::Acquired { image_index: 1, suboptimal: true });
    assert!(matches!(step, AcquireStep::Proceed { .. }));
    assert!(s.begin_acquire());
}

#[test]
fn out_of_date_acquire_skips_frame() {
    let mut s: SwapchainState<u32> = SwapchainState::new();
    let step = s.finish_acquire(AcquireOutcome::OutOfDate);
    assert!(matches!(step, AcquireStep::SkipFrame));
    assert_eq!(s.current_frame(), 0);
    assert!(s.begin_acquire());
}

#[test]
fn failed_acquire_is_fatal() {
    let mut s: SwapchainState<u32> = SwapchainState::new();
    assert!(matches!(s.finish_acquire(AcquireOutcome::Failed), AcquireStep::Fatal));
    assert!(!s.recreate_requested());
}

#[test]
fn out_of_date_present_drops_fence_and_rebuilds() {
    let mut s: SwapchainState<u32> = SwapchainState::new();
    assert_eq!(s.finish_present(PresentOutcome::OutOfDate), PresentStep::Presented);
    assert_eq!(s.current_frame(), 1);
    assert!(s.recreate_requested());
    assert_eq!(s.finish_present(PresentOutcome::Flushed(5)), PresentStep::Presented);
    assert_eq!(s.current_frame(), 0);
    assert!(s.current_frame_end().is_none());
}

#[test]
fn failed_present_is_fatal_and_keeps_frame() {
    let mut s: SwapchainState<u32> = SwapchainState::new();
    assert_eq!(s.finish_present(PresentOutcome::Failed), PresentStep::Fatal);
    assert_eq!(s.current_frame(), 0);
}

#[test]
fn present_mode_unrecognized_ranks_with_others() {
    let modes = vec![PresentModeKind::Unrecognized, PresentModeKind::Immediate];
    assert_eq!(choose_present_mode(&modes), PresentModeKind::Unrecognized);
    let modes = vec![PresentModeKind::Unrecognized, PresentModeKind::Fifo];
    assert_eq!(choose_present_mode(&modes), PresentModeKind::Fifo);
}

#[test]
fn frame_slot_counts_presents_over_a_run() {
    let mut s: SwapchainState<u32> = SwapchainState::new();
    let mut presents = 0usize;
    for round in 0..5u32 {
        if round == 2 {
            s.request_recreate();
        }
        s.begin_acquire();
        if round == 3 {
            assert!(matches!(s.finish_acquire(AcquireOutcome::OutOfDate), AcquireStep::SkipFrame));
            continue;
        }
        s.finish_acquire(AcquireOutcome::Acquired { image_index: round, suboptimal: false });
        let outcome = if round == 1 { PresentOutcome::OutOfDate } else { PresentOutcome::Flushed(round) };
        assert_eq!(s.finish_present(outcome), PresentStep::Presented);
        presents += 1;
        assert_eq!(s.current_frame(), presents % FRAMES_IN_FLIGHT);
    }
    assert_eq!(presents, 4);
    assert_eq!(s.current_frame(), 0);
}
