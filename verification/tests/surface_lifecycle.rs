//! Tests of the surface-lifecycle state machine: recovery from
//! transient surface failures, fatal classification, and resize
//! handling.

use flashlight_overlay::surface::{
    RenderOutcome, SurfaceAction, SurfaceLifecycle, SurfacePhase,
};

#[test]
fn outdated_surface_reconfigures_and_rendering_resumes() {
    let mut s = SurfaceLifecycle::new();
    assert_eq!(s.phase, SurfacePhase::Ready);
    // An Outdated failure on acquire: the loop must reconfigure against
    // the current window size, not exit.
    let action = s.on_render_outcome(RenderOutcome::Outdated);
    assert_eq!(action, SurfaceAction::Reconfigure);
    assert_eq!(s.phase, SurfacePhase::NeedsReconfigure);
    s.reconfigured();
    assert_eq!(s.phase, SurfacePhase::Ready);
    // The next frame renders as if nothing happened.
    let action = s.on_render_outcome(RenderOutcome::Success);
    assert_eq!(action, SurfaceAction::Continue);
    assert_eq!(s.phase, SurfacePhase::Ready);
}

#[test]
fn lost_surface_reconfigures() {
    let mut s = SurfaceLifecycle::new();
    assert_eq!(s.on_render_outcome(RenderOutcome::Lost), SurfaceAction::Reconfigure);
    assert_eq!(s.phase, SurfacePhase::NeedsReconfigure);
}

#[test]
fn timeout_is_transient() {
    let mut s = SurfaceLifecycle::new();
    assert_eq!(s.on_render_outcome(RenderOutcome::Timeout), SurfaceAction::Continue);
    assert_eq!(s.phase, SurfacePhase::Ready);
}

#[test]
fn out_of_memory_is_fatal() {
    let mut s = SurfaceLifecycle::new();
    assert_eq!(s.on_render_outcome(RenderOutcome::OutOfMemory), SurfaceAction::Exit);
    assert_eq!(s.phase, SurfacePhase::Fatal);
}

#[test]
fn unclassified_failure_aborts() {
    let mut s = SurfaceLifecycle::new();
    assert_eq!(s.on_render_outcome(RenderOutcome::Unknown), SurfaceAction::Abort);
    assert_eq!(s.phase, SurfacePhase::Fatal);
}

#[test]
fn degenerate_resize_is_ignored() {
    let mut s = SurfaceLifecycle::new();
    assert!(!s.on_resize(0, 600));
    assert_eq!(s.phase, SurfacePhase::Ready);
    assert!(!s.on_resize(800, 0));
    assert_eq!(s.phase, SurfacePhase::Ready);
    assert!(s.on_resize(800, 600));
    assert_eq!(s.phase, SurfacePhase::NeedsReconfigure);
    s.reconfigured();
    assert_eq!(s.phase, SurfacePhase::Ready);
}
