use mygame::frame::{
    acquire_outcome, Command, INITIAL_DELTA_NANOS, FatalFrameError, FrameStep, RendererState, Size, SurfaceErrorKind,
    WindowInput,
};
use mygame::input::Key;

fn size(width: u32, height: u32) -> Size {
    Size { width, height }
}

#[test]
fn end_to_end_resolution_follows_resize() {
    let mut s = RendererState::new(size(800, 600));
    let u = s.begin_frame(1_000);
    assert_eq!(u.resolution, (800, 600));
    assert_eq!(s.window_event(WindowInput::Resized(size(1024, 768))), Command::Resize(size(1024, 768)));
    assert_eq!(s.depth, size(1024, 768));
    assert_eq!(s.surface, size(1024, 768));
    let u = s.begin_frame(2_000);
    assert_eq!(u.resolution, (1024, 768));
}

#[test]
fn depth_matches_surface_after_each_resize() {
    let mut s = RendererState::new(size(640, 480));
    for &(w, h) in &[(1, 1), (1920, 1080), (0, 0), (u32::MAX, 7), (300, 200)] {
        s.resize(size(w, h));
        assert_eq!(s.surface, size(w, h));
        assert_eq!(s.depth, s.surface);
    }
}

#[test]
fn begin_frame_measures_delta_from_previous_frame() {
    let mut s = RendererState::new(size(10, 10));
    let u = s.begin_frame(16_000_000);
    assert_eq!(u.time_nanos, 16_000_000);
    assert_eq!(u.delta_nanos, 16_000_000);
    let u = s.begin_frame(33_000_000);
    assert_eq!(u.time_nanos, 33_000_000);
    assert_eq!(u.delta_nanos, 17_000_000);
    assert_eq!(s.prev_nanos, 33_000_000);
}

#[test]
fn transient_error_skips_frame_once() {
    let mut s = RendererState::new(size(10, 10));
    s.begin_frame(5);
    assert_eq!(acquire_outcome(Err(SurfaceErrorKind::Timeout)), FrameStep::Skip);
    assert_eq!(s.prev_nanos, 5);
    let u = s.begin_frame(12);
    assert_eq!(u.delta_nanos, 7);
    assert_eq!(acquire_outcome(Err(SurfaceErrorKind::Outdated)), FrameStep::Skip);
    assert_eq!(s.prev_nanos, 12);
}

#[test]
fn acquire_outcomes() {
    assert_eq!(acquire_outcome(Ok(())), FrameStep::Present);
    assert_eq!(
        acquire_outcome(Err(SurfaceErrorKind::Lost)),
        FrameStep::Fatal(FatalFrameError::SurfaceLost)
    );
    assert_eq!(
        acquire_outcome(Err(SurfaceErrorKind::OutOfMemory)),
        FrameStep::Fatal(FatalFrameError::OutOfMemory)
    );
}

#[test]
fn window_events_map_to_commands() {
    let mut s = RendererState::new(size(800, 600));
    assert_eq!(s.window_event(WindowInput::CloseRequested), Command::Exit);
    assert_eq!(s.window_event(WindowInput::RedrawRequested), Command::Render);
    assert_eq!(s.window_event(WindowInput::Other), Command::Nothing);
    assert_eq!(
        s.window_event(WindowInput::Keyboard { key: Key::Escape, pressed: true }),
        Command::Exit
    );
    assert_eq!(
        s.window_event(WindowInput::Keyboard { key: Key::Escape, pressed: false }),
        Command::Nothing
    );
    assert_eq!(
        s.window_event(WindowInput::Keyboard { key: Key::KeyF, pressed: true }),
        Command::ToggleFullscreen
    );
    assert_eq!(
        s.window_event(WindowInput::Keyboard { key: Key::KeyW, pressed: true }),
        Command::Nothing
    );
    assert_eq!(s.surface, size(800, 600));
    assert_eq!(s.depth, size(800, 600));
}

#[test]
fn initial_uniform_holds_surface_size() {
    let s = RendererState::new(size(800, 600));
    let u = s.initial_uniform();
    assert_eq!(u.resolution, (800, 600));
    assert_eq!(u.time_nanos, 0);
    assert_eq!(u.delta_nanos, INITIAL_DELTA_NANOS);
    assert_eq!(INITIAL_DELTA_NANOS, 10_000_000);
}
