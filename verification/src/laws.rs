//! The engine's global laws, stated and proved over the spec-level
//! transition functions: every reachable state is well formed and keeps
//! zoom and radius in their legal ranges; the reset action is absolute
//! and idempotent; cursor wrapping never distorts the accumulated pan;
//! and with no further input both damped velocities reach zero in a
//! bounded number of frames, decaying geometrically.

use vstd::prelude::*;

verus! {

use crate::camera::{cam_init, ZOOM_MAX, ZOOM_MIN};
use crate::fixed::{
    abs_i, iter_scaled, lemma_iter_scaled_geometric, lemma_iter_scaled_zero, lemma_scaled_abs_le,
    lemma_scaled_geometric, POS_LIMIT, TARGET_LIMIT,
};
use vstd::arithmetic::power::pow;
use crate::flashlight::{RADIUS_MAX, RADIUS_MIN};
use crate::cursor::wrap_spec;
use crate::state::{
    apply_event_spec, frame_step_spec, overlay_inv, pos_clamp, InputEvent, OverlayView,
};

/// A whole sequence of input events, applied one at a time.
pub open spec fn run_events_spec(s: OverlayView, es: Seq<InputEvent>) -> OverlayView
    decreases es.len(),
{
    if es.len() == 0 {
        s
    } else {
        run_events_spec(apply_event_spec(s, es[0]), es.drop_first())
    }
}

/// A whole run of input-free frames.
pub open spec fn run_frames_spec(s: OverlayView, k: nat, sw: int, sh: int) -> OverlayView
    decreases k,
{
    if k == 0 {
        s
    } else {
        run_frames_spec(frame_step_spec(s, sw, sh), (k - 1) as nat, sw, sh)
    }
}

/// No single input event can break the state's well-formedness.
pub proof fn lemma_event_preserves_inv(s: OverlayView, e: InputEvent)
    requires
        overlay_inv(s),
    ensures
        overlay_inv(apply_event_spec(s, e)),
{
}

/// No sequence of input events can break the state's well-formedness.
pub proof fn lemma_events_preserve_inv(s: OverlayView, es: Seq<InputEvent>)
    requires
        overlay_inv(s),
    ensures
        overlay_inv(run_events_spec(s, es)),
    decreases es.len(),
{
    if es.len() > 0 {
        lemma_event_preserves_inv(s, es[0]);
        lemma_events_preserve_inv(apply_event_spec(s, es[0]), es.drop_first());
    }
}

/// The per-frame step keeps the state well formed, and leaves the zoom
/// and the flashlight radius inside their legal ranges — so after any
/// sequence of input events — scrolls among them — followed by any
/// integration step, both are in bounds.
pub proof fn lemma_frame_step_bounds(s: OverlayView, sw: int, sh: int)
    requires
        overlay_inv(s),
        0 <= sw <= POS_LIMIT,
        0 <= sh <= POS_LIMIT,
    ensures
        overlay_inv(frame_step_spec(s, sw, sh)),
        ZOOM_MIN <= frame_step_spec(s, sw, sh).camera.zoom <= ZOOM_MAX,
        RADIUS_MIN <= frame_step_spec(s, sw, sh).flashlight.radius <= RADIUS_MAX,
{
    lemma_scaled_abs_le(s.camera.velocity, 95, 100);
    lemma_scaled_abs_le(s.flashlight.radius_velocity, 9, 10);
}

/// Zoom and radius stay in their legal ranges after every integration
/// step of every interleaving: one frame round — any batch of events,
/// then the integration step — started from any well-formed state ends
/// well formed with zoom and radius in bounds.
pub proof fn lemma_round_bounds(s: OverlayView, es: Seq<InputEvent>, sw: int, sh: int)
    requires
        overlay_inv(s),
        0 <= sw <= POS_LIMIT,
        0 <= sh <= POS_LIMIT,
    ensures
        overlay_inv(frame_step_spec(run_events_spec(s, es), sw, sh)),
        ZOOM_MIN <= frame_step_spec(run_events_spec(s, es), sw, sh).camera.zoom <= ZOOM_MAX,
        RADIUS_MIN <= frame_step_spec(run_events_spec(s, es), sw, sh).flashlight.radius
            <= RADIUS_MAX,
{
    lemma_events_preserve_inv(s, es);
    lemma_frame_step_bounds(run_events_spec(s, es), sw, sh);
}

/// The reset action is absolute and idempotent: it leaves the camera
/// centered at the origin with unit zoom and zero velocity whatever the
/// prior state, and issuing it twice is the same as issuing it once.
pub proof fn lemma_reset_idempotent(s: OverlayView)
    ensures
        apply_event_spec(s, InputEvent::ResetKey).camera == cam_init(),
        apply_event_spec(apply_event_spec(s, InputEvent::ResetKey), InputEvent::ResetKey)
            == apply_event_spec(s, InputEvent::ResetKey),
{
}

/// The accumulated drag displacement along one axis: each frame
/// contributes the raw distance from the drag anchor to the (clamped)
/// reported position, with the next anchor at the wrapped position.
pub open spec fn drag_sum_x(ax: int, ps: Seq<(i64, i64)>, sw: int, sh: int) -> int
    decreases ps.len(),
{
    if ps.len() == 0 {
        0
    } else {
        let px = pos_clamp(ps[0].0 as int);
        let py = pos_clamp(ps[0].1 as int);
        (px - ax) + drag_sum_x(wrap_spec(px, py, sw, sh).0, ps.drop_first(), sw, sh)
    }
}

/// As `drag_sum_x`, along the other axis.
pub open spec fn drag_sum_y(ay: int, ps: Seq<(i64, i64)>, sw: int, sh: int) -> int
    decreases ps.len(),
{
    if ps.len() == 0 {
        0
    } else {
        let px = pos_clamp(ps[0].0 as int);
        let py = pos_clamp(ps[0].1 as int);
        (py - ay) + drag_sum_y(wrap_spec(px, py, sw, sh).1, ps.drop_first(), sw, sh)
    }
}

/// The total magnitude of the per-frame displacements along one axis:
/// when it fits in the representable pan range, no saturation occurs.
pub open spec fn drag_abs_x(ax: int, ps: Seq<(i64, i64)>, sw: int, sh: int) -> int
    decreases ps.len(),
{
    if ps.len() == 0 {
        0
    } else {
        let px = pos_clamp(ps[0].0 as int);
        let py = pos_clamp(ps[0].1 as int);
        abs_i(px - ax) + drag_abs_x(wrap_spec(px, py, sw, sh).0, ps.drop_first(), sw, sh)
    }
}

/// As `drag_abs_x`, along the other axis.
pub open spec fn drag_abs_y(ay: int, ps: Seq<(i64, i64)>, sw: int, sh: int) -> int
    decreases ps.len(),
{
    if ps.len() == 0 {
        0
    } else {
        let px = pos_clamp(ps[0].0 as int);
        let py = pos_clamp(ps[0].1 as int);
        abs_i(py - ay) + drag_abs_y(wrap_spec(px, py, sw, sh).1, ps.drop_first(), sw, sh)
    }
}

/// A dragged run: each frame one pointer-move event, then the per-frame
/// step (pan, wrap, integrate).
pub open spec fn run_drag_spec(s: OverlayView, ps: Seq<(i64, i64)>, sw: int, sh: int)
    -> OverlayView
    decreases ps.len(),
{
    if ps.len() == 0 {
        s
    } else {
        let moved = apply_event_spec(s, InputEvent::PointerMoved { x: ps[0].0, y: ps[0].1 });
        run_drag_spec(frame_step_spec(moved, sw, sh), ps.drop_first(), sw, sh)
    }
}

proof fn lemma_drag_abs_x_nonneg(ax: int, ps: Seq<(i64, i64)>, sw: int, sh: int)
    ensures
        drag_abs_x(ax, ps, sw, sh) >= 0,
    decreases ps.len(),
{
    if ps.len() > 0 {
        let px = pos_clamp(ps[0].0 as int);
        let py = pos_clamp(ps[0].1 as int);
        lemma_drag_abs_x_nonneg(wrap_spec(px, py, sw, sh).0, ps.drop_first(), sw, sh);
    }
}

proof fn lemma_drag_abs_y_nonneg(ay: int, ps: Seq<(i64, i64)>, sw: int, sh: int)
    ensures
        drag_abs_y(ay, ps, sw, sh) >= 0,
    decreases ps.len(),
{
    if ps.len() > 0 {
        let px = pos_clamp(ps[0].0 as int);
        let py = pos_clamp(ps[0].1 as int);
        lemma_drag_abs_y_nonneg(wrap_spec(px, py, sw, sh).1, ps.drop_first(), sw, sh);
    }
}

/// Wrap continuity: over any dragged run whose total displacement fits
/// in the representable pan range, the accumulated pan equals the sum of
/// the raw per-frame displacements, as if no wrap had occurred — the
/// edge teleports never leak into the camera target.
pub proof fn lemma_wrap_continuity(
    s: OverlayView,
    ax: int,
    ay: int,
    ps: Seq<(i64, i64)>,
    sw: int,
    sh: int,
)
    requires
        overlay_inv(s),
        s.cursor.anchor == Option::<(int, int)>::Some((ax, ay)),
        0 <= sw <= POS_LIMIT,
        0 <= sh <= POS_LIMIT,
        abs_i(s.camera.target_x) + drag_abs_x(ax, ps, sw, sh) <= TARGET_LIMIT,
        abs_i(s.camera.target_y) + drag_abs_y(ay, ps, sw, sh) <= TARGET_LIMIT,
    ensures
        run_drag_spec(s, ps, sw, sh).camera.target_x == s.camera.target_x + drag_sum_x(
            ax,
            ps,
            sw,
            sh,
        ),
        run_drag_spec(s, ps, sw, sh).camera.target_y == s.camera.target_y + drag_sum_y(
            ay,
            ps,
            sw,
            sh,
        ),
    decreases ps.len(),
{
    if ps.len() > 0 {
        let px = pos_clamp(ps[0].0 as int);
        let py = pos_clamp(ps[0].1 as int);
        let w = wrap_spec(px, py, sw, sh);
        let moved = apply_event_spec(s, InputEvent::PointerMoved { x: ps[0].0, y: ps[0].1 });
        let s1 = frame_step_spec(moved, sw, sh);
        lemma_event_preserves_inv(s, InputEvent::PointerMoved { x: ps[0].0, y: ps[0].1 });
        lemma_frame_step_bounds(moved, sw, sh);
        lemma_drag_abs_x_nonneg(w.0, ps.drop_first(), sw, sh);
        lemma_drag_abs_y_nonneg(w.1, ps.drop_first(), sw, sh);
        assert(abs_i(s.camera.target_x + (px - ax)) <= abs_i(s.camera.target_x) + abs_i(px - ax));
        assert(abs_i(s.camera.target_y + (py - ay)) <= abs_i(s.camera.target_y) + abs_i(py - ay));
        assert(s1.camera.target_x == s.camera.target_x + (px - ax));
        assert(s1.camera.target_y == s.camera.target_y + (py - ay));
        assert(s1.cursor.anchor == Option::<(int, int)>::Some(w));
        lemma_wrap_continuity(s1, w.0, w.1, ps.drop_first(), sw, sh);
    }
}

/// After `k` input-free frames, the zoom velocity is its starting value
/// decayed `k` times by 95/100, and the radius velocity its starting
/// value decayed `k` times by 9/10.
pub proof fn lemma_coast_velocities(s: OverlayView, k: nat, sw: int, sh: int)
    ensures
        run_frames_spec(s, k, sw, sh).camera.velocity == iter_scaled(
            s.camera.velocity,
            95,
            100,
            k,
        ),
        run_frames_spec(s, k, sw, sh).flashlight.radius_velocity == iter_scaled(
            s.flashlight.radius_velocity,
            9,
            10,
            k,
        ),
    decreases k,
{
    if k > 0 {
        lemma_coast_velocities(frame_step_spec(s, sw, sh), (k - 1) as nat, sw, sh);
    }
}

/// Damping convergence: with zero further input, both velocities reach
/// exactly zero — below any positive threshold — within a bounded number
/// of frames (at most their starting magnitude in micro-units).
pub proof fn lemma_damping_convergence(s: OverlayView, k: nat, sw: int, sh: int)
    requires
        abs_i(s.camera.velocity) <= k,
        abs_i(s.flashlight.radius_velocity) <= k,
    ensures
        run_frames_spec(s, k, sw, sh).camera.velocity == 0,
        run_frames_spec(s, k, sw, sh).flashlight.radius_velocity == 0,
{
    lemma_coast_velocities(s, k, sw, sh);
    lemma_iter_scaled_zero(s.camera.velocity, 95, 100, k);
    lemma_iter_scaled_zero(s.flashlight.radius_velocity, 9, 10, k);
}

/// Damping is geometric over whole runs too: `k` input-free frames
/// multiply the zoom velocity's magnitude by at most `(95/100)` to the
/// `k`-th power, and the radius velocity's by at most `(9/10)` to the
/// `k`-th power.
pub proof fn lemma_coast_geometric(s: OverlayView, k: nat, sw: int, sh: int)
    ensures
        abs_i(run_frames_spec(s, k, sw, sh).camera.velocity) * pow(100, k) <= abs_i(
            s.camera.velocity,
        ) * pow(95, k),
        abs_i(run_frames_spec(s, k, sw, sh).flashlight.radius_velocity) * pow(10, k) <= abs_i(
            s.flashlight.radius_velocity,
        ) * pow(9, k),
{
    lemma_coast_velocities(s, k, sw, sh);
    lemma_iter_scaled_geometric(s.camera.velocity, 95, 100, k);
    lemma_iter_scaled_geometric(s.flashlight.radius_velocity, 9, 10, k);
}

/// Damping is geometric: each frame multiplies the zoom velocity's
/// magnitude by at most 95/100 and the radius velocity's by at most
/// 9/10.
pub proof fn lemma_damping_geometric(s: OverlayView, sw: int, sh: int)
    ensures
        100 * abs_i(frame_step_spec(s, sw, sh).camera.velocity) <= 95 * abs_i(s.camera.velocity),
        10 * abs_i(frame_step_spec(s, sw, sh).flashlight.radius_velocity) <= 9 * abs_i(
            s.flashlight.radius_velocity,
        ),
{
    lemma_scaled_geometric(s.camera.velocity, 95, 100);
    lemma_scaled_geometric(s.flashlight.radius_velocity, 9, 10);
}

} // verus!
