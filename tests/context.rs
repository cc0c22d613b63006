use render_harness::context::{clamped_size, frame_outcome, require_adapter, setup_outcome, FrameOutcome, InitError};
use render_harness::gpu::AcquireError;

#[test]
fn zero_size_clamps_to_one_by_one() {
    assert_eq!(clamped_size(0, 0, 2048), (1, 1));
}

#[test]
fn positive_size_is_kept() {
    assert_eq!(clamped_size(1920, 1080, 8192), (1920, 1080));
    assert_eq!(clamped_size(1, 1, 2048), (1, 1));
    assert_eq!(clamped_size(2048, 7, 2048), (2048, 7));
}

#[test]
fn one_zero_side_clamps_alone() {
    assert_eq!(clamped_size(0, 600, 2048), (1, 600));
    assert_eq!(clamped_size(800, 0, 2048), (800, 1));
}

#[test]
fn sides_above_device_limit_clamp_to_it() {
    assert_eq!(clamped_size(4000, 3000, 2048), (2048, 2048));
    assert_eq!(clamped_size(u32::MAX, 600, 8192), (8192, 600));
}

#[test]
fn acquired_image_presents() {
    assert_eq!(frame_outcome(Ok(())), Ok(FrameOutcome::Presented));
}

#[test]
fn outdated_surface_skips_frame() {
    assert_eq!(frame_outcome(Err(AcquireError::Outdated)), Ok(FrameOutcome::Skipped));
}

#[test]
fn other_acquire_failures_are_fatal() {
    assert_eq!(frame_outcome(Err(AcquireError::Lost)), Err(AcquireError::Lost));
    assert_eq!(frame_outcome(Err(AcquireError::Timeout)), Err(AcquireError::Timeout));
    assert_eq!(frame_outcome(Err(AcquireError::OutOfMemory)), Err(AcquireError::OutOfMemory));
}

#[test]
fn missing_adapter_stops_start_up() {
    assert!(matches!(require_adapter(None), Err(InitError::NoAdapter)));
}

#[test]
fn set_up_needs_a_texture_side_and_a_configuration() {
    assert_eq!(setup_outcome(2048, true), Ok(()));
    assert_eq!(setup_outcome(1, true), Ok(()));
    assert_eq!(setup_outcome(0, true), Err(InitError::UnsupportedSurface));
    assert_eq!(setup_outcome(2048, false), Err(InitError::UnsupportedSurface));
    assert_eq!(setup_outcome(0, false), Err(InitError::UnsupportedSurface));
}
