//! The surface-lifecycle state machine of the frame synchronizer: what
//! to do after each attempt to acquire and present a frame, and how the
//! presentable surface moves between ready, needs-reconfigure and fatal.

use vstd::prelude::*;

verus! {

/// How one frame's acquire/present attempt ended, as classified by the
/// rendering backend.
#[derive(Clone, Copy, PartialEq, Eq, Structural, Debug)]
pub enum RenderOutcome {
    /// The frame was presented.
    Success,
    /// The surface was lost and must be rebuilt.
    Lost,
    /// The surface no longer matches the window and must be rebuilt.
    Outdated,
    /// Resource exhaustion: unrecoverable.
    OutOfMemory,
    /// A transient timeout: retry next frame.
    Timeout,
    /// An unclassified failure: a contract violation, abort.
    Unknown,
}

/// What the render loop must do in response to a frame's outcome.
#[derive(Clone, Copy, PartialEq, Eq, Structural, Debug)]
pub enum SurfaceAction {
    /// Keep rendering: request the next frame.
    Continue,
    /// Reconfigure the surface against the current window size, then
    /// keep rendering.
    Reconfigure,
    /// Terminate the process after reporting.
    Exit,
    /// Abort: an error that should never occur.
    Abort,
}

/// The lifecycle state of the presentable surface.
#[derive(Clone, Copy, PartialEq, Eq, Structural, Debug)]
pub enum SurfacePhase {
    /// The surface can be rendered to.
    Ready,
    /// The surface must be reconfigured before the next frame.
    NeedsReconfigure,
    /// The surface is gone for good.
    Fatal,
}

/// The action owed to each outcome: transient losses reconfigure,
/// timeouts retry, resource exhaustion exits, the unclassified aborts.
pub open spec fn action_spec(o: RenderOutcome) -> SurfaceAction {
    match o {
        RenderOutcome::Success => SurfaceAction::Continue,
        RenderOutcome::Lost => SurfaceAction::Reconfigure,
        RenderOutcome::Outdated => SurfaceAction::Reconfigure,
        RenderOutcome::OutOfMemory => SurfaceAction::Exit,
        RenderOutcome::Timeout => SurfaceAction::Continue,
        RenderOutcome::Unknown => SurfaceAction::Abort,
    }
}

/// The phase the surface enters after an outcome.
pub open spec fn phase_spec(o: RenderOutcome) -> SurfacePhase {
    match o {
        RenderOutcome::Success => SurfacePhase::Ready,
        RenderOutcome::Lost => SurfacePhase::NeedsReconfigure,
        RenderOutcome::Outdated => SurfacePhase::NeedsReconfigure,
        RenderOutcome::OutOfMemory => SurfacePhase::Fatal,
        RenderOutcome::Timeout => SurfacePhase::Ready,
        RenderOutcome::Unknown => SurfacePhase::Fatal,
    }
}

/// A resize is acted on exactly when both dimensions are nonzero.
pub open spec fn resize_accepted_spec(width: u32, height: u32) -> bool {
    width > 0 && height > 0
}

/// The surface lifecycle, stepped once per frame and on each resize.
#[derive(Clone, Copy, PartialEq, Eq, Structural, Debug)]
pub struct SurfaceLifecycle {
    pub phase: SurfacePhase,
}

impl SurfaceLifecycle {
    /// A fresh surface, ready to render.
    pub fn new() -> (s: SurfaceLifecycle)
        ensures
            s.phase == SurfacePhase::Ready,
    {
        SurfaceLifecycle { phase: SurfacePhase::Ready }
    }

    /// Classify a frame's outcome: the phase moves as the state machine
    /// says, and the returned action tells the loop what to do.
    pub fn on_render_outcome(&mut self, outcome: RenderOutcome) -> (action: SurfaceAction)
        ensures
            action == action_spec(outcome),
            final(self).phase == phase_spec(outcome),
    {
        let action = match outcome {
            RenderOutcome::Success => SurfaceAction::Continue,
            RenderOutcome::Lost => SurfaceAction::Reconfigure,
            RenderOutcome::Outdated => SurfaceAction::Reconfigure,
            RenderOutcome::OutOfMemory => SurfaceAction::Exit,
            RenderOutcome::Timeout => SurfaceAction::Continue,
            RenderOutcome::Unknown => SurfaceAction::Abort,
        };
        self.phase = match outcome {
            RenderOutcome::Success => SurfacePhase::Ready,
            RenderOutcome::Lost => SurfacePhase::NeedsReconfigure,
            RenderOutcome::Outdated => SurfacePhase::NeedsReconfigure,
            RenderOutcome::OutOfMemory => SurfacePhase::Fatal,
            RenderOutcome::Timeout => SurfacePhase::Ready,
            RenderOutcome::Unknown => SurfacePhase::Fatal,
        };
        action
    }

    /// A resize event: accepted (forcing reconfiguration) exactly when
    /// both dimensions are nonzero; a degenerate size is ignored.
    pub fn on_resize(&mut self, width: u32, height: u32) -> (accepted: bool)
        ensures
            accepted == resize_accepted_spec(width, height),
            accepted ==> final(self).phase == SurfacePhase::NeedsReconfigure,
            !accepted ==> final(self).phase == old(self).phase,
    {
        if width > 0 && height > 0 {
            self.phase = SurfacePhase::NeedsReconfigure;
            true
        } else {
            false
        }
    }

    /// The surface was reconfigured against the current window size:
    /// rendering resumes next frame.
    pub fn reconfigured(&mut self)
        ensures
            final(self).phase == SurfacePhase::Ready,
    {
        self.phase = SurfacePhase::Ready;
    }
}

} // verus!
