//! The frame loop: what happens in which order between two redraws.
//!
//! The loop itself runs outside this library: it waits for events, submits
//! work to the GPU and presents. What it does next is decided here, one step at
//! a time. Every frame goes `Idle -> ComputePass -> RenderPass -> Presented ->
//! Idle`: the compute pass is submitted before the render pass that reads its
//! output, and a frame whose surface could not be acquired is given up without
//! rendering.

use vstd::prelude::*;
use crate::gpu_context::GpuContext;
use crate::gpu_context::PhysicalSize;

verus! {

/// Milliseconds between two reports of the frame rate.
pub const REPORT_INTERVAL_MS: u64 = 1000;

/// Why the next surface texture could not be acquired.
#[derive(Debug, Clone, Copy, PartialEq, Eq)]
pub enum SurfaceError {
    /// Acquiring took too long.
    Timeout,
    /// The surface has changed and must be configured again.
    Outdated,
    /// The surface is gone and must be made again.
    Lost,
    /// There is no memory left.
    OutOfMemory,
}

/// Where a frame stands.
#[derive(Debug, Clone, Copy, PartialEq, Eq)]
pub enum FramePhase {
    /// Between frames, waiting for a redraw request.
    Idle,
    /// The per-frame state is being brought up to date and the compute pass
    /// submitted.
    ComputePass,
    /// The surface texture is being acquired and the render pass submitted.
    RenderPass,
    /// The frame is being presented.
    Presented,
}

/// What the loop reports to the driver.
#[derive(Debug, Clone, Copy, PartialEq, Eq)]
pub enum FrameEvent {
    /// The window asks to be drawn again.
    RedrawRequested,
    /// The per-frame state is up to date and the compute pass is submitted.
    ComputeSubmitted,
    /// The surface texture is acquired and the render pass is submitted.
    RenderSubmitted,
    /// The surface texture could not be acquired.
    SurfaceFailed(SurfaceError),
    /// The frame is presented, `since_report_ms` milliseconds after the frame
    /// rate was last reported.
    Presented { since_report_ms: u64 },
}

/// What the loop has to do next.
#[derive(Debug, Clone, Copy, PartialEq, Eq)]
pub enum FrameAction {
    /// Bring the per-frame state up to date and submit the compute pass.
    Compute,
    /// Acquire the surface texture and submit the render pass.
    Render,
    /// Present the frame.
    Present,
    /// The frame is done: wait for the next redraw request. With `Some(n)`,
    /// first report that `n` frames were drawn since the last report.
    Wait { report: Option<u32> },
    /// The frame is given up: configure the surface again, then wait.
    Reconfigure,
    /// The frame is given up and nothing is done about it: wait.
    Skip,
    /// Leave the loop.
    Exit,
    /// The event does not belong to the phase the frame is in. Nothing has
    /// changed.
    Rejected,
}

/// The driver's state as a plain value.
pub struct FrameState {
    pub phase: FramePhase,
    /// Frames drawn since the frame rate was last reported.
    pub frame_count: u32,
    /// Frames drawn since the loop began.
    pub total_frames: u32,
}

impl FrameState {
    /// No more frames were drawn since the last report than were drawn at
    /// all.
    pub open spec fn wf(self) -> bool {
        self.frame_count <= self.total_frames
    }

    /// Whether `event` belongs to the phase the frame is in.
    pub open spec fn accepts(self, event: FrameEvent) -> bool {
        match (self.phase, event) {
            (FramePhase::Idle, FrameEvent::RedrawRequested) => true,
            (FramePhase::ComputePass, FrameEvent::ComputeSubmitted) => true,
            (FramePhase::RenderPass, FrameEvent::RenderSubmitted) => true,
            (FramePhase::RenderPass, FrameEvent::SurfaceFailed(_)) => true,
            (FramePhase::Presented, FrameEvent::Presented { .. }) => true,
            _ => false,
        }
    }

    /// The state after `event`.
    pub open spec fn next(self, event: FrameEvent) -> FrameState {
        if !self.accepts(event) {
            self
        } else {
            match event {
                FrameEvent::RedrawRequested => FrameState { phase: FramePhase::ComputePass, ..self },
                FrameEvent::ComputeSubmitted => FrameState { phase: FramePhase::RenderPass, ..self },
                FrameEvent::RenderSubmitted => FrameState { phase: FramePhase::Presented, ..self },
                FrameEvent::SurfaceFailed(_) => FrameState { phase: FramePhase::Idle, ..self },
                FrameEvent::Presented { since_report_ms } => FrameState {
                    phase: FramePhase::Idle,
                    frame_count: if since_report_ms >= REPORT_INTERVAL_MS {
                        0
                    } else {
                        (self.frame_count + 1) as u32
                    },
                    total_frames: (self.total_frames + 1) as u32,
                },
            }
        }
    }

    /// What the loop has to do after `event`.
    pub open spec fn action(self, event: FrameEvent) -> FrameAction {
        if !self.accepts(event) {
            FrameAction::Rejected
        } else {
            match event {
                FrameEvent::RedrawRequested => FrameAction::Compute,
                FrameEvent::ComputeSubmitted => FrameAction::Render,
                FrameEvent::RenderSubmitted => FrameAction::Present,
                FrameEvent::SurfaceFailed(SurfaceError::Lost) => FrameAction::Reconfigure,
                FrameEvent::SurfaceFailed(SurfaceError::Outdated) => FrameAction::Reconfigure,
                FrameEvent::SurfaceFailed(SurfaceError::OutOfMemory) => FrameAction::Exit,
                FrameEvent::SurfaceFailed(SurfaceError::Timeout) => FrameAction::Skip,
                FrameEvent::Presented { since_report_ms } => FrameAction::Wait {
                    report: if since_report_ms >= REPORT_INTERVAL_MS {
                        Some((self.frame_count + 1) as u32)
                    } else {
                        None
                    },
                },
            }
        }
    }
}

/// Decides, step by step, what the frame loop does.
#[derive(Debug)]
pub struct FrameDriver {
    phase: FramePhase,
    frame_count: u32,
    total_frames: u32,
}

impl View for FrameDriver {
    type V = FrameState;

    closed spec fn view(&self) -> FrameState {
        FrameState {
            phase: self.phase,
            frame_count: self.frame_count,
            total_frames: self.total_frames,
        }
    }
}

impl FrameDriver {
    /// A driver between frames that has drawn nothing yet.
    pub fn new() -> (driver: Self)
        ensures
            driver@ == (FrameState { phase: FramePhase::Idle, frame_count: 0, total_frames: 0 }),
            driver@.wf(),
    {
        FrameDriver { phase: FramePhase::Idle, frame_count: 0, total_frames: 0 }
    }

    /// Where the frame stands.
    pub fn phase(&self) -> (phase: FramePhase)
        ensures
            phase == self@.phase,
    {
        self.phase
    }

    /// Frames drawn since the loop began.
    pub fn total_frames(&self) -> (frames: u32)
        ensures
            frames == self@.total_frames,
    {
        self.total_frames
    }

    /// Whether the driver can still count the frame that it is asked to count:
    /// every event but the presentation of the 2^32-th frame.
    pub open spec fn can_take(&self, event: FrameEvent) -> bool {
        self@.phase == FramePhase::Presented && event is Presented ==> self@.total_frames
            < u32::MAX
    }

    /// Takes `event` and says what the loop has to do next.
    ///
    /// An event that belongs to the phase the frame is in moves the frame on:
    /// a redraw request starts the compute pass, the compute pass is followed
    /// by the render pass, the render pass by the presentation, and the
    /// presentation ends the frame and counts it. Once a second the number of
    /// frames drawn since the last report is handed out and the count starts
    /// again. A surface that could not be acquired ends the frame at once:
    /// lost or outdated, it is to be configured again; out of memory, the loop
    /// is to be left; timed out, the frame is skipped. Any other event is
    /// rejected and changes nothing.
    pub fn step(&mut self, event: FrameEvent) -> (action: FrameAction)
        requires
            old(self)@.wf(),
            old(self).can_take(event),
        ensures
            final(self)@ == old(self)@.next(event),
            final(self)@.wf(),
            action == old(self)@.action(event),
    {
        match (self.phase, event) {
            (FramePhase::Idle, FrameEvent::RedrawRequested) => {
                self.phase = FramePhase::ComputePass;
                FrameAction::Compute
            },
            (FramePhase::ComputePass, FrameEvent::ComputeSubmitted) => {
                self.phase = FramePhase::RenderPass;
                FrameAction::Render
            },
            (FramePhase::RenderPass, FrameEvent::RenderSubmitted) => {
                self.phase = FramePhase::Presented;
                FrameAction::Present
            },
            (FramePhase::RenderPass, FrameEvent::SurfaceFailed(error)) => {
                self.phase = FramePhase::Idle;
                match error {
                    SurfaceError::Lost => FrameAction::Reconfigure,
                    SurfaceError::Outdated => FrameAction::Reconfigure,
                    SurfaceError::OutOfMemory => FrameAction::Exit,
                    SurfaceError::Timeout => FrameAction::Skip,
                }
            },
            (FramePhase::Presented, FrameEvent::Presented { since_report_ms }) => {
                let since_report: u32 = self.frame_count;
                self.phase = FramePhase::Idle;
                self.total_frames = self.total_frames + 1;
                let drawn: u32 = since_report + 1;
                if since_report_ms >= REPORT_INTERVAL_MS {
                    self.frame_count = 0;
                    FrameAction::Wait { report: Some(drawn) }
                } else {
                    self.frame_count = drawn;
                    FrameAction::Wait { report: None }
                }
            },
            _ => FrameAction::Rejected,
        }
    }
}

/// The events of `events` that the driver takes when it starts in `state`, in
/// their order.
pub open spec fn taken(state: FrameState, events: Seq<FrameEvent>) -> Seq<FrameEvent>
    decreases events.len(),
{
    if events.len() == 0 {
        Seq::empty()
    } else if state.accepts(events[0]) {
        seq![events[0]] + taken(state.next(events[0]), events.drop_first())
    } else {
        taken(state, events.drop_first())
    }
}

/// What the phase says of the event that the driver took last.
spec fn phase_follows(state: FrameState, last: Option<FrameEvent>) -> bool {
    match state.phase {
        FramePhase::Idle => last is None || last matches Some(FrameEvent::SurfaceFailed(_)) || last matches Some(
            FrameEvent::Presented { .. },
        ),
        FramePhase::ComputePass => last == Some(FrameEvent::RedrawRequested),
        FramePhase::RenderPass => last == Some(FrameEvent::ComputeSubmitted),
        FramePhase::Presented => last == Some(FrameEvent::RenderSubmitted),
    }
}

proof fn lemma_taken_order(state: FrameState, last: Option<FrameEvent>, events: Seq<FrameEvent>)
    requires
        phase_follows(state, last),
    ensures
        forall|i: int|
            0 <= i < taken(state, events).len() ==> {
                let before = if i == 0 {
                    last
                } else {
                    Some(taken(state, events)[i - 1])
                };
                let event = #[trigger] taken(state, events)[i];
                &&& event is RenderSubmitted ==> before == Some(FrameEvent::ComputeSubmitted)
                &&& event is SurfaceFailed ==> before == Some(FrameEvent::ComputeSubmitted)
                &&& event is ComputeSubmitted ==> before == Some(FrameEvent::RedrawRequested)
                &&& event is Presented ==> before == Some(FrameEvent::RenderSubmitted)
            },
    decreases events.len(),
{
    if events.len() == 0 {
    } else if state.accepts(events[0]) {
        let rest = taken(state.next(events[0]), events.drop_first());
        lemma_taken_order(state.next(events[0]), Some(events[0]), events.drop_first());
        let all = taken(state, events);
        assert(all == seq![events[0]] + rest);
        assert forall|i: int| 0 <= i < all.len() implies {
            let before = if i == 0 {
                last
            } else {
                Some(all[i - 1])
            };
            let event = #[trigger] all[i];
            &&& event is RenderSubmitted ==> before == Some(FrameEvent::ComputeSubmitted)
            &&& event is SurfaceFailed ==> before == Some(FrameEvent::ComputeSubmitted)
            &&& event is ComputeSubmitted ==> before == Some(FrameEvent::RedrawRequested)
            &&& event is Presented ==> before == Some(FrameEvent::RenderSubmitted)
        } by {
            if i > 0 {
                assert(all[i] == rest[i - 1]);
                if i > 1 {
                    assert(all[i - 1] == rest[i - 2]);
                }
            }
        }
    } else {
        lemma_taken_order(state, last, events.drop_first());
    }
}

/// Whatever events reach a driver that starts between frames, in whatever
/// order: of the events it takes, a render pass always comes straight after
/// the compute pass of the same frame, a compute pass straight after a redraw
/// request, and a presentation straight after a render pass. No frame is
/// rendered before it is computed, and none is presented before it is
/// rendered.
pub proof fn lemma_compute_before_render(start: FrameState, events: Seq<FrameEvent>)
    requires
        start.phase == FramePhase::Idle,
    ensures
        forall|i: int|
            0 <= i < taken(start, events).len() ==> {
                let event = #[trigger] taken(start, events)[i];
                &&& event is RenderSubmitted ==> i > 0 && taken(start, events)[i - 1]
                    == FrameEvent::ComputeSubmitted
                &&& event is ComputeSubmitted ==> i > 0 && taken(start, events)[i - 1]
                    == FrameEvent::RedrawRequested
                &&& event is Presented ==> i > 0 && taken(start, events)[i - 1]
                    == FrameEvent::RenderSubmitted
            },
{
    lemma_taken_order(start, None, events);
}

/// A frame that meets no failure goes once round: from between frames, a
/// redraw request, the compute pass, the render pass and the presentation lead
/// back to between frames, with one frame more drawn.
pub proof fn lemma_frame_goes_round(start: FrameState, since_report_ms: u64)
    requires
        start.phase == FramePhase::Idle,
        start.total_frames < u32::MAX,
        start.wf(),
    ensures
        ({
            let end = start.next(FrameEvent::RedrawRequested).next(
                FrameEvent::ComputeSubmitted,
            ).next(FrameEvent::RenderSubmitted).next(FrameEvent::Presented { since_report_ms });
            &&& end.phase == FramePhase::Idle
            &&& end.total_frames == start.total_frames + 1
            &&& end.wf()
        }),
{
}

/// A frame whose surface cannot be acquired is given up after its compute
/// pass: the driver is between frames again and has counted nothing.
pub proof fn lemma_failed_frame_is_not_counted(start: FrameState, error: SurfaceError)
    requires
        start.phase == FramePhase::Idle,
    ensures
        start.next(FrameEvent::RedrawRequested).next(FrameEvent::ComputeSubmitted).next(
            FrameEvent::SurfaceFailed(error),
        ) == start,
{
}

/// What the window reports, once the overlay and the input handling have
/// declined the event.
#[derive(Debug, Clone, Copy, PartialEq, Eq)]
pub enum WindowEvent {
    /// The window is asked to close.
    CloseRequested,
    /// The escape key went down.
    EscapePressed,
    /// The window has the size given.
    Resized(PhysicalSize),
    /// The window asks to be drawn again.
    RedrawRequested,
    /// Anything else.
    Other,
}

/// What the loop has to do about a window event.
#[derive(Debug, Clone, Copy, PartialEq, Eq)]
pub enum LoopAction {
    /// Nothing.
    Ignore,
    /// Leave the loop.
    Exit,
    /// Configure the surface for its new size, and make again every texture
    /// that is as large as the surface.
    Reconfigure,
    /// Draw a frame.
    Redraw,
}

/// Decides what the loop does about `event`, and lets `ctx` follow the window
/// where it was resized.
///
/// An event that the overlay or the input handling has used is ignored. A
/// close request and the escape key end the loop. A resize to a size without
/// a zero side is followed by `ctx` and asks for the surface to be configured
/// again; a resize to a size with a zero side is ignored. A redraw request
/// asks for a frame.
pub fn on_window_event(ctx: &mut GpuContext, consumed: bool, event: WindowEvent) -> (action:
    LoopAction)
    ensures
        action == loop_action(consumed, event),
        action == LoopAction::Reconfigure ==> (event matches WindowEvent::Resized(size)
            && final(ctx).size == size && final(ctx).wf()),
        action != LoopAction::Reconfigure ==> *final(ctx) == *old(ctx),
        final(ctx).surface_config.format == old(ctx).surface_config.format,
{
    if consumed {
        return LoopAction::Ignore;
    }
    match event {
        WindowEvent::CloseRequested => LoopAction::Exit,
        WindowEvent::EscapePressed => LoopAction::Exit,
        WindowEvent::Resized(size) => {
            if ctx.resize(size) {
                LoopAction::Reconfigure
            } else {
                LoopAction::Ignore
            }
        },
        WindowEvent::RedrawRequested => LoopAction::Redraw,
        WindowEvent::Other => LoopAction::Ignore,
    }
}

/// What the loop does about `event` (see [`on_window_event`]).
pub open spec fn loop_action(consumed: bool, event: WindowEvent) -> LoopAction {
    if consumed {
        LoopAction::Ignore
    } else {
        match event {
            WindowEvent::CloseRequested => LoopAction::Exit,
            WindowEvent::EscapePressed => LoopAction::Exit,
            WindowEvent::Resized(size) => if size.width > 0 && size.height > 0 {
                LoopAction::Reconfigure
            } else {
                LoopAction::Ignore
            },
            WindowEvent::RedrawRequested => LoopAction::Redraw,
            WindowEvent::Other => LoopAction::Ignore,
        }
    }
}

} // verus!
