use volym::cli::Command;
use volym::cli::Demo;
use volym::event_loop::on_window_event;
use volym::event_loop::FrameAction;
use volym::event_loop::FrameDriver;
use volym::event_loop::FrameEvent;
use volym::event_loop::FramePhase;
use volym::event_loop::LoopAction;
use volym::event_loop::SurfaceError;
use volym::event_loop::WindowEvent;
use volym::event_loop::REPORT_INTERVAL_MS;
use volym::gpu::TextureFormat;
use volym::gpu_context::GpuContext;
use volym::gpu_context::PhysicalSize;

fn context() -> GpuContext {
    GpuContext::new(PhysicalSize { width: 1200, height: 768 }, TextureFormat::Rgba8Unorm)
}

fn draw_frame(driver: &mut FrameDriver, since_report_ms: u64) -> FrameAction {
    assert_eq!(driver.step(FrameEvent::RedrawRequested), FrameAction::Compute);
    assert_eq!(driver.step(FrameEvent::ComputeSubmitted), FrameAction::Render);
    assert_eq!(driver.step(FrameEvent::RenderSubmitted), FrameAction::Present);
    driver.step(FrameEvent::Presented { since_report_ms })
}

#[test]
fn a_frame_goes_through_every_phase() {
    let mut driver = FrameDriver::new();
    assert_eq!(driver.phase(), FramePhase::Idle);
    assert_eq!(driver.total_frames(), 0);
    assert_eq!(driver.step(FrameEvent::RedrawRequested), FrameAction::Compute);
    assert_eq!(driver.phase(), FramePhase::ComputePass);
    assert_eq!(driver.step(FrameEvent::ComputeSubmitted), FrameAction::Render);
    assert_eq!(driver.phase(), FramePhase::RenderPass);
    assert_eq!(driver.step(FrameEvent::RenderSubmitted), FrameAction::Present);
    assert_eq!(driver.phase(), FramePhase::Presented);
    assert_eq!(
        driver.step(FrameEvent::Presented { since_report_ms: 16 }),
        FrameAction::Wait { report: None }
    );
    assert_eq!(driver.phase(), FramePhase::Idle);
    assert_eq!(driver.total_frames(), 1);
}

#[test]
fn render_before_compute_is_rejected() {
    let mut driver = FrameDriver::new();
    assert_eq!(driver.step(FrameEvent::RenderSubmitted), FrameAction::Rejected);
    assert_eq!(driver.step(FrameEvent::ComputeSubmitted), FrameAction::Rejected);
    assert_eq!(driver.step(FrameEvent::Presented { since_report_ms: 0 }), FrameAction::Rejected);
    assert_eq!(
        driver.step(FrameEvent::SurfaceFailed(SurfaceError::Lost)),
        FrameAction::Rejected
    );
    assert_eq!(driver.phase(), FramePhase::Idle);
    assert_eq!(driver.step(FrameEvent::RedrawRequested), FrameAction::Compute);
    assert_eq!(driver.step(FrameEvent::RenderSubmitted), FrameAction::Rejected);
    assert_eq!(driver.step(FrameEvent::RedrawRequested), FrameAction::Rejected);
    assert_eq!(driver.phase(), FramePhase::ComputePass);
    assert_eq!(driver.total_frames(), 0);
}

#[test]
fn a_lost_or_outdated_surface_is_configured_again() {
    for error in [SurfaceError::Lost, SurfaceError::Outdated] {
        let mut driver = FrameDriver::new();
        driver.step(FrameEvent::RedrawRequested);
        driver.step(FrameEvent::ComputeSubmitted);
        assert_eq!(driver.step(FrameEvent::SurfaceFailed(error)), FrameAction::Reconfigure);
        assert_eq!(driver.phase(), FramePhase::Idle);
        assert_eq!(driver.total_frames(), 0);
        // the next frame is drawn as usual
        assert_eq!(draw_frame(&mut driver, 0), FrameAction::Wait { report: None });
        assert_eq!(driver.total_frames(), 1);
    }
}

#[test]
fn out_of_memory_ends_the_loop() {
    let mut driver = FrameDriver::new();
    driver.step(FrameEvent::RedrawRequested);
    driver.step(FrameEvent::ComputeSubmitted);
    assert_eq!(
        driver.step(FrameEvent::SurfaceFailed(SurfaceError::OutOfMemory)),
        FrameAction::Exit
    );
    assert_eq!(driver.total_frames(), 0);
}

#[test]
fn a_timeout_skips_the_frame() {
    let mut driver = FrameDriver::new();
    driver.step(FrameEvent::RedrawRequested);
    driver.step(FrameEvent::ComputeSubmitted);
    assert_eq!(driver.step(FrameEvent::SurfaceFailed(SurfaceError::Timeout)), FrameAction::Skip);
    assert_eq!(driver.phase(), FramePhase::Idle);
    assert_eq!(driver.total_frames(), 0);
}

#[test]
fn frame_rate_is_reported_once_a_second() {
    assert_eq!(REPORT_INTERVAL_MS, 1000);
    let mut driver = FrameDriver::new();
    assert_eq!(draw_frame(&mut driver, 0), FrameAction::Wait { report: None });
    assert_eq!(draw_frame(&mut driver, 500), FrameAction::Wait { report: None });
    assert_eq!(draw_frame(&mut driver, 999), FrameAction::Wait { report: None });
    assert_eq!(draw_frame(&mut driver, 1000), FrameAction::Wait { report: Some(4) });
    assert_eq!(draw_frame(&mut driver, 10), FrameAction::Wait { report: None });
    assert_eq!(draw_frame(&mut driver, 5000), FrameAction::Wait { report: Some(2) });
    assert_eq!(driver.total_frames(), 6);
}

#[test]
fn window_events_decide_what_the_loop_does() {
    let mut ctx = context();
    assert_eq!(on_window_event(&mut ctx, false, WindowEvent::CloseRequested), LoopAction::Exit);
    assert_eq!(on_window_event(&mut ctx, false, WindowEvent::EscapePressed), LoopAction::Exit);
    assert_eq!(on_window_event(&mut ctx, false, WindowEvent::RedrawRequested), LoopAction::Redraw);
    assert_eq!(on_window_event(&mut ctx, false, WindowEvent::Other), LoopAction::Ignore);
    assert_eq!(ctx, context());
}

#[test]
fn used_up_events_are_ignored() {
    let mut ctx = context();
    let size = PhysicalSize { width: 10, height: 10 };
    for event in [
        WindowEvent::CloseRequested,
        WindowEvent::EscapePressed,
        WindowEvent::Resized(size),
        WindowEvent::RedrawRequested,
        WindowEvent::Other,
    ] {
        assert_eq!(on_window_event(&mut ctx, true, event), LoopAction::Ignore);
    }
    assert_eq!(ctx, context());
}

#[test]
fn resize_reconfigures_the_surface() {
    let mut ctx = context();
    let size = PhysicalSize { width: 640, height: 480 };
    assert_eq!(on_window_event(&mut ctx, false, WindowEvent::Resized(size)), LoopAction::Reconfigure);
    assert_eq!(ctx.size, size);
    assert_eq!(ctx.surface_config.width, 640);
    assert_eq!(ctx.surface_config.height, 480);
    assert_eq!(ctx.surface_config.format, TextureFormat::Rgba8Unorm);
}

#[test]
fn resize_to_nothing_is_ignored() {
    for size in [
        PhysicalSize { width: 0, height: 480 },
        PhysicalSize { width: 640, height: 0 },
        PhysicalSize { width: 0, height: 0 },
    ] {
        let mut ctx = context();
        assert_eq!(on_window_event(&mut ctx, false, WindowEvent::Resized(size)), LoopAction::Ignore);
        assert_eq!(ctx, context());
        assert!(!ctx.resize(size));
        assert_eq!(ctx, context());
    }
}

#[test]
fn context_follows_the_window() {
    let mut ctx = context();
    assert_eq!(ctx.size, PhysicalSize { width: 1200, height: 768 });
    assert_eq!(ctx.surface_config.width, 1200);
    assert_eq!(ctx.surface_config.height, 768);
    assert!(ctx.resize(PhysicalSize { width: 1, height: 1 }));
    assert_eq!(ctx.size, PhysicalSize { width: 1, height: 1 });
    assert_eq!(ctx.surface_config.width, 1);
    assert_eq!(ctx.surface_config.height, 1);
}

#[test]
fn first_srgb_format_is_preferred() {
    let rgba = TextureFormat::Rgba8Unorm;
    let rgba_srgb = TextureFormat::Rgba8UnormSrgb;
    let bgra = TextureFormat::Bgra8Unorm;
    let bgra_srgb = TextureFormat::Bgra8UnormSrgb;
    assert_eq!(GpuContext::preferred_format(&[bgra, rgba_srgb, bgra_srgb]), rgba_srgb);
    assert_eq!(GpuContext::preferred_format(&[bgra_srgb, rgba]), bgra_srgb);
    assert_eq!(GpuContext::preferred_format(&[bgra, rgba]), bgra);
    assert_eq!(GpuContext::preferred_format(&[rgba]), rgba);
    assert_eq!(GpuContext::preferred_format(&[rgba, bgra, bgra_srgb]), bgra_srgb);
    assert!(rgba_srgb.is_srgb());
    assert!(bgra_srgb.is_srgb());
    assert!(!rgba.is_srgb());
    assert!(!bgra.is_srgb());
    assert!(!TextureFormat::R8Unorm.is_srgb());
    assert_eq!(bgra_srgb.bytes_per_texel(), 4);
}

#[test]
fn the_simple_demo_runs_by_default() {
    assert_eq!(Command::default(), Command::Run(Demo::Simple));
    assert_eq!(Demo::default(), Demo::Simple);
    assert_ne!(Command::default(), Command::Benchmark);
}
