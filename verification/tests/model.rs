use render_core::context::{AcquireError, InitError, RenderContext, SurfaceConfig};
use render_core::frame::Frame;
use render_core::lifecycle::{step, LoopAction, LoopEvent, LoopState};
use render_core::Color;

#[test]
fn configure_takes_positive_size() {
    let mut ctx = RenderContext::new(800, 600, 7);
    assert_eq!(
        ctx.config,
        SurfaceConfig { width: 800, height: 600, format_id: 7 }
    );
    ctx.configure(1024, 768);
    assert_eq!(
        ctx.config,
        SurfaceConfig { width: 1024, height: 768, format_id: 7 }
    );
}

#[test]
fn initialize_needs_a_device() {
    let ctx = RenderContext::initialize(640, 480, 2, true).expect("device available");
    assert_eq!(
        ctx.config,
        SurfaceConfig { width: 640, height: 480, format_id: 2 }
    );
    match RenderContext::initialize(640, 480, 2, false) {
        Err(e) => assert_eq!(e, InitError::DeviceUnavailable),
        Ok(_) => panic!("no device must fail startup"),
    }
}

#[test]
fn configure_ignores_zero_dimension() {
    let mut ctx = RenderContext::new(800, 600, 3);
    ctx.configure(0, 1080);
    assert_eq!(
        ctx.config,
        SurfaceConfig { width: 800, height: 600, format_id: 3 }
    );
    ctx.configure(1920, 0);
    assert_eq!(
        ctx.config,
        SurfaceConfig { width: 800, height: 600, format_id: 3 }
    );
    ctx.configure(0, 0);
    assert_eq!(
        ctx.config,
        SurfaceConfig { width: 800, height: 600, format_id: 3 }
    );
}

#[test]
fn configure_then_acquire_succeeds() {
    let mut ctx = RenderContext::new(32, 32, 0);
    ctx.configure(64, 48);
    let frame = ctx.acquire_frame(None).expect("acquisition after a positive configure");
    assert_eq!(frame.width(), 64);
    assert_eq!(frame.height(), 48);
}

#[test]
fn acquire_after_zero_configure_keeps_previous_size() {
    let mut ctx = RenderContext::new(64, 48, 0);
    ctx.configure(0, 0);
    let frame = ctx.acquire_frame(None).expect("previous valid configuration still in effect");
    assert_eq!(frame.width(), 64);
    assert_eq!(frame.height(), 48);
}

#[test]
fn configure_twice_same_as_once() {
    let mut once = RenderContext::new(800, 600, 1);
    let mut twice = RenderContext::new(800, 600, 1);
    once.configure(1280, 720);
    twice.configure(1280, 720);
    twice.configure(1280, 720);
    assert_eq!(once, twice);
    let f1 = once.acquire_frame(None).unwrap();
    let f2 = twice.acquire_frame(None).unwrap();
    assert_eq!(f1.width(), f2.width());
    assert_eq!(f1.height(), f2.height());
}

#[test]
fn acquire_reports_each_fault() {
    let ctx = RenderContext::new(8, 8, 0);
    assert_eq!(
        ctx.acquire_frame(Some(AcquireError::SurfaceLost)).unwrap_err(),
        AcquireError::SurfaceLost
    );
    assert_eq!(
        ctx.acquire_frame(Some(AcquireError::OutOfMemory)).unwrap_err(),
        AcquireError::OutOfMemory
    );
    assert_eq!(
        ctx.acquire_frame(Some(AcquireError::Other)).unwrap_err(),
        AcquireError::Other
    );
    assert!(ctx.acquire_frame(None).is_ok());
}

#[test]
fn transparent_black_is_all_zero_bits() {
    let c = Color::transparent_black();
    assert_eq!(
        c,
        Color { r_bits: 0, g_bits: 0, b_bits: 0, a_bits: 0 }
    );
    assert_eq!(f64::to_bits(0.0), 0u64);
}

#[test]
fn frame_clear_and_readback() {
    let mut frame = Frame::new(4, 3);
    let red = Color { r_bits: f64::to_bits(1.0), g_bits: 0, b_bits: 0, a_bits: f64::to_bits(1.0) };
    frame.clear(red);
    for y in 0..3 {
        for x in 0..4 {
            assert_eq!(frame.pixel(x, y), red);
        }
    }
}

#[test]
fn frame_set_pixel_touches_one_pixel() {
    let mut frame = Frame::new(5, 5);
    let blue = Color { r_bits: 0, g_bits: 0, b_bits: f64::to_bits(1.0), a_bits: f64::to_bits(1.0) };
    let base = Color::transparent_black();
    frame.clear(base);
    frame.set_pixel(2, 3, blue);
    for y in 0..5 {
        for x in 0..5 {
            if (x, y) == (2, 3) {
                assert_eq!(frame.pixel(x, y), blue);
            } else {
                assert_eq!(frame.pixel(x, y), base);
            }
        }
    }
}

#[test]
fn lifecycle_success_cycle_returns_to_idle() {
    let (s1, a1) = step(LoopState::Idle, LoopEvent::RedrawReady);
    assert_eq!((s1, a1), (LoopState::FrameRequested, LoopAction::Acquire));
    let (s2, a2) = step(s1, LoopEvent::AcquireOk);
    assert_eq!((s2, a2), (LoopState::FrameAcquired, LoopAction::Encode));
    let (s3, a3) = step(s2, LoopEvent::EncodeDone);
    assert_eq!((s3, a3), (LoopState::Encoding, LoopAction::Submit));
    let (s4, a4) = step(s3, LoopEvent::SubmitDone);
    assert_eq!((s4, a4), (LoopState::Submitted, LoopAction::Present));
    let (s5, a5) = step(s4, LoopEvent::PresentDone);
    assert_eq!((s5, a5), (LoopState::Presented, LoopAction::Wait));
    let (s6, a6) = step(s5, LoopEvent::FrameComplete);
    assert_eq!((s6, a6), (LoopState::Idle, LoopAction::Wait));
}

#[test]
fn lifecycle_lost_surface_reconfigures() {
    let (s, a) = step(
        LoopState::FrameRequested,
        LoopEvent::AcquireFailed(AcquireError::SurfaceLost),
    );
    assert_eq!((s, a), (LoopState::Idle, LoopAction::Reconfigure));
}

#[test]
fn lifecycle_out_of_memory_shuts_down() {
    let (s, a) = step(
        LoopState::FrameRequested,
        LoopEvent::AcquireFailed(AcquireError::OutOfMemory),
    );
    assert_eq!((s, a), (LoopState::Shutdown, LoopAction::Exit));
    let (s2, a2) = step(s, LoopEvent::RedrawReady);
    assert_eq!((s2, a2), (LoopState::Shutdown, LoopAction::Exit));
}

#[test]
fn lifecycle_other_failure_drops_frame() {
    let (s, a) = step(
        LoopState::FrameRequested,
        LoopEvent::AcquireFailed(AcquireError::Other),
    );
    assert_eq!((s, a), (LoopState::Idle, LoopAction::SkipFrame));
}

#[test]
fn lifecycle_ignores_stray_events() {
    let (s, a) = step(LoopState::Idle, LoopEvent::SubmitDone);
    assert_eq!((s, a), (LoopState::Idle, LoopAction::Wait));
    let (s2, a2) = step(LoopState::Submitted, LoopEvent::RedrawReady);
    assert_eq!((s2, a2), (LoopState::Submitted, LoopAction::Wait));
}
