//! The renderer's per-window state machine: surface and depth-buffer sizes,
//! frame timing, window-event dispatch and frame-acquisition outcomes.
use vstd::prelude::*;
use crate::input::Key;

verus! {

/// A drawable size in physical pixels.
#[derive(Clone, Copy, Debug, PartialEq, Eq, Structural)]
pub struct Size {
    pub width: u32,
    pub height: u32,
}

/// Per-frame scalar state handed to the shaders; times in nanoseconds since start.
#[derive(Clone, Copy, Debug, PartialEq, Eq)]
pub struct FrameUniform {
    pub resolution: (u32, u32),
    pub time_nanos: u64,
    pub delta_nanos: u64,
}

/// The frame delta written before the first frame is measured: ten milliseconds.
pub const INITIAL_DELTA_NANOS: u64 = 10_000_000;

/// Why acquiring a presentable image failed.
#[derive(Clone, Copy, Debug, PartialEq, Eq, Structural)]
pub enum SurfaceErrorKind {
    Timeout,
    Outdated,
    Lost,
    OutOfMemory,
}

/// An error after which no further frame can be rendered.
#[derive(Clone, Copy, Debug, PartialEq, Eq, Structural)]
pub enum FatalFrameError {
    /// The surface was invalidated; recovering from this is not supported.
    SurfaceLost,
    /// No memory was left to allocate a new frame.
    OutOfMemory,
}

/// What to do with a frame once acquisition has been attempted.
#[derive(Clone, Copy, Debug, PartialEq, Eq, Structural)]
pub enum FrameStep {
    /// Record the render pass, submit and present the image.
    Present,
    /// A transient failure: drop this frame and try again on the next redraw.
    Skip,
    /// Terminate the loop.
    Fatal(FatalFrameError),
}

/// A window event, reduced to what the renderer decides on.
#[derive(Clone, Copy, Debug, PartialEq, Eq, Structural)]
pub enum WindowInput {
    CloseRequested,
    RedrawRequested,
    Resized(Size),
    Keyboard { key: Key, pressed: bool },
    Other,
}

/// What the host has to do in answer to a window event.
#[derive(Clone, Copy, Debug, PartialEq, Eq, Structural)]
pub enum Command {
    Nothing,
    Exit,
    /// Render one frame (see `RendererState::begin_frame`).
    Render,
    /// Reconfigure the surface and recreate the depth buffer at this size.
    Resize(Size),
    ToggleFullscreen,
}

/// What the renderer tracks of its device-owned resources and of time.
#[derive(Clone, Copy, Debug, PartialEq, Eq, Structural)]
pub struct RendererState {
    /// The size the presentation surface is configured with.
    pub surface: Size,
    /// The size of the current depth buffer.
    pub depth: Size,
    /// The time of the previous frame, in nanoseconds since start.
    pub prev_nanos: u64,
}

/// Whether an acquisition failure only costs the current frame.
pub open spec fn is_transient(e: SurfaceErrorKind) -> bool {
    e == SurfaceErrorKind::Timeout || e == SurfaceErrorKind::Outdated
}

/// The step that follows an acquisition result.
pub open spec fn step_of(r: Result<(), SurfaceErrorKind>) -> FrameStep {
    match r {
        Ok(()) => FrameStep::Present,
        Err(SurfaceErrorKind::Lost) => FrameStep::Fatal(FatalFrameError::SurfaceLost),
        Err(SurfaceErrorKind::OutOfMemory) => FrameStep::Fatal(FatalFrameError::OutOfMemory),
        Err(_) => FrameStep::Skip,
    }
}

/// Decides how the frame goes on after trying to acquire a presentable image.
pub fn acquire_outcome(r: Result<(), SurfaceErrorKind>) -> (s: FrameStep)
    ensures
        s == step_of(r),
        s == FrameStep::Skip <==> (r is Err && is_transient(r->Err_0)),
{
    match r {
        Ok(()) => FrameStep::Present,
        Err(SurfaceErrorKind::Lost) => FrameStep::Fatal(FatalFrameError::SurfaceLost),
        Err(SurfaceErrorKind::OutOfMemory) => FrameStep::Fatal(FatalFrameError::OutOfMemory),
        Err(SurfaceErrorKind::Timeout) => FrameStep::Skip,
        Err(SurfaceErrorKind::Outdated) => FrameStep::Skip,
    }
}

impl RendererState {
    /// The depth buffer always matches the configured surface.
    pub open spec fn wf(self) -> bool {
        self.depth == self.surface
    }

    /// The state after a resize to `size`.
    pub open spec fn resized(self, size: Size) -> RendererState {
        RendererState { surface: size, depth: size, ..self }
    }

    /// The uniform of a frame that starts at `now`.
    pub open spec fn uniform_at(self, now: u64) -> FrameUniform {
        FrameUniform {
            resolution: (self.surface.width, self.surface.height),
            time_nanos: now,
            delta_nanos: (now - self.prev_nanos) as u64,
        }
    }

    /// The state after a frame that starts at `now`.
    pub open spec fn after_frame(self, now: u64) -> RendererState {
        RendererState { prev_nanos: now, ..self }
    }

    /// The command and the state that follow a window event.
    pub open spec fn on_event(self, ev: WindowInput) -> (Command, RendererState) {
        match ev {
            WindowInput::CloseRequested => (Command::Exit, self),
            WindowInput::RedrawRequested => (Command::Render, self),
            WindowInput::Resized(size) => (Command::Resize(size), self.resized(size)),
            WindowInput::Keyboard { key, pressed } => {
                if key == Key::Escape && pressed {
                    (Command::Exit, self)
                } else if key == Key::KeyF && pressed {
                    (Command::ToggleFullscreen, self)
                } else {
                    (Command::Nothing, self)
                }
            },
            WindowInput::Other => (Command::Nothing, self),
        }
    }

    /// The state after a sequence of window events, applied in order.
    pub open spec fn run_events(self, evs: Seq<WindowInput>) -> RendererState
        decreases evs.len(),
    {
        if evs.len() == 0 {
            self
        } else {
            self.run_events(evs.drop_last()).on_event(evs.last()).1
        }
    }

    /// The state right after initialisation with a surface of `size`.
    pub fn new(size: Size) -> (r: RendererState)
        ensures
            r.surface == size,
            r.depth == size,
            r.prev_nanos == 0,
            r.wf(),
    {
        RendererState { surface: size, depth: size, prev_nanos: 0 }
    }

    /// The uniform written when the buffers are created, before any frame.
    pub fn initial_uniform(&self) -> (u: FrameUniform)
        ensures
            u.resolution == (self.surface.width, self.surface.height),
            u.time_nanos == 0,
            u.delta_nanos == INITIAL_DELTA_NANOS,
    {
        FrameUniform {
            resolution: (self.surface.width, self.surface.height),
            time_nanos: 0,
            delta_nanos: INITIAL_DELTA_NANOS,
        }
    }

    /// Records that the surface was reconfigured and the depth buffer recreated at `size`.
    pub fn resize(&mut self, size: Size)
        ensures
            *final(self) == old(self).resized(size),
            final(self).wf(),
            final(self).surface == size,
            final(self).depth == size,
    {
        self.surface = size;
        self.depth = size;
    }

    /// Starts a frame at `now` (monotonic, nanoseconds since start): returns the
    /// frame's uniform and makes `now` the previous frame's time, once.
    pub fn begin_frame(&mut self, now: u64) -> (u: FrameUniform)
        requires
            old(self).prev_nanos <= now,
        ensures
            u == old(self).uniform_at(now),
            u.resolution == (old(self).surface.width, old(self).surface.height),
            u.time_nanos == now,
            u.delta_nanos == now - old(self).prev_nanos,
            *final(self) == old(self).after_frame(now),
    {
        let u = FrameUniform {
            resolution: (self.surface.width, self.surface.height),
            time_nanos: now,
            delta_nanos: now - self.prev_nanos,
        };
        self.prev_nanos = now;
        u
    }

    /// Applies a window event and says what the host has to do.
    pub fn window_event(&mut self, ev: WindowInput) -> (c: Command)
        ensures
            (c, *final(self)) == old(self).on_event(ev),
    {
        match ev {
            WindowInput::CloseRequested => Command::Exit,
            WindowInput::RedrawRequested => Command::Render,
            WindowInput::Resized(size) => {
                self.resize(size);
                Command::Resize(size)
            },
            WindowInput::Keyboard { key, pressed } => {
                if key == Key::Escape && pressed {
                    Command::Exit
                } else if key == Key::KeyF && pressed {
                    Command::ToggleFullscreen
                } else {
                    Command::Nothing
                }
            },
            WindowInput::Other => Command::Nothing,
        }
    }
}

/// Over any sequence of window events the depth buffer keeps the size of the
/// configured surface, and right after a resize both have exactly the new size.
pub proof fn lemma_depth_follows_surface(s: RendererState, evs: Seq<WindowInput>)
    requires
        s.wf(),
    ensures
        s.run_events(evs).wf(),
        evs.len() > 0 && evs.last() is Resized ==> s.run_events(evs).surface == evs.last()->Resized_0
            && s.run_events(evs).depth == evs.last()->Resized_0,
    decreases evs.len(),
{
    if evs.len() > 0 {
        lemma_depth_follows_surface(s, evs.drop_last());
    }
}

/// The first frame after a resize reports the new size as its resolution, and
/// the depth buffer it renders with has that size too.
pub proof fn lemma_resolution_follows_resize(s: RendererState, size: Size, now: u64)
    requires
        s.prev_nanos <= now,
    ensures
        s.resized(size).uniform_at(now).resolution == (size.width, size.height),
        s.resized(size).depth == size,
{
}

/// A frame whose acquisition fails transiently is skipped and moves the
/// previous-frame time once, to its own start: the next frame's delta is
/// measured from that start.
pub proof fn lemma_transient_skip(s: RendererState, e: SurfaceErrorKind, now: u64, next: u64)
    requires
        is_transient(e),
        s.prev_nanos <= now <= next,
    ensures
        step_of(Err(e)) == FrameStep::Skip,
        s.after_frame(now).prev_nanos == now,
        s.after_frame(now).uniform_at(next).delta_nanos == next - now,
{
}

} // verus!
