//! The camera controller: a pan offset, a zoom factor and a scroll-driven
//! zoom velocity. Once per frame the velocity is damped by 95/100 and
//! integrated into the zoom, which is clamped into its legal range; the
//! pan offset follows the drag displacement handed over by the cursor
//! controller.

use vstd::prelude::*;

verus! {

use crate::fixed::{
    abs_i, clamp_i64, clamp_spec, decay, scaled, DELTA_LIMIT, POS_LIMIT, TARGET_LIMIT, VEL_LIMIT,
};

/// Smallest zoom factor, in micro-units (0.01).
pub const ZOOM_MIN: i64 = 10_000;

/// Largest zoom factor, in micro-units (100.0).
pub const ZOOM_MAX: i64 = 100_000_000;

/// Zoom factor at startup and after a reset, in micro-units (1.0).
pub const ZOOM_INIT: i64 = 1_000_000;

/// Mathematical model of the camera: pan offset, zoom and zoom velocity
/// as unbounded integers in micro-units.
pub ghost struct CamView {
    pub target_x: int,
    pub target_y: int,
    pub zoom: int,
    pub velocity: int,
}

/// The camera state, in micro-units.
#[derive(Clone, Copy, PartialEq, Eq, Structural, Debug)]
pub struct CameraState {
    pub target_x: i64,
    pub target_y: i64,
    pub zoom: i64,
    pub velocity: i64,
}

impl View for CameraState {
    type V = CamView;

    open spec fn view(&self) -> CamView {
        CamView {
            target_x: self.target_x as int,
            target_y: self.target_y as int,
            zoom: self.zoom as int,
            velocity: self.velocity as int,
        }
    }
}

/// Well-formedness of a camera: the zoom is inside its legal range and
/// pan and velocity are inside the representable range.
pub open spec fn cam_inv(c: CamView) -> bool {
    &&& ZOOM_MIN <= c.zoom <= ZOOM_MAX
    &&& -TARGET_LIMIT <= c.target_x <= TARGET_LIMIT
    &&& -TARGET_LIMIT <= c.target_y <= TARGET_LIMIT
    &&& -VEL_LIMIT <= c.velocity <= VEL_LIMIT
}

/// The camera state at startup and after a reset: centered, unit zoom,
/// at rest.
pub open spec fn cam_init() -> CamView {
    CamView { target_x: 0, target_y: 0, zoom: ZOOM_INIT as int, velocity: 0 }
}

/// One scroll event without the control modifier: the (defensively
/// clamped) line delta, times the acceleration of one hundredth,
/// is added to the zoom velocity.
pub open spec fn cam_scroll_spec(c: CamView, delta: int) -> CamView {
    CamView {
        velocity: clamp_spec(
            c.velocity + scaled(clamp_spec(delta, -DELTA_LIMIT as int, DELTA_LIMIT as int), 1, 100),
            -VEL_LIMIT as int,
            VEL_LIMIT as int,
        ),
        ..c
    }
}

/// The per-frame camera integration: damp the velocity by 95/100, add it
/// to the zoom, and clamp the zoom into its legal range.
pub open spec fn cam_integrate_spec(c: CamView) -> CamView {
    let v = scaled(c.velocity, 95, 100);
    CamView {
        velocity: v,
        zoom: clamp_spec(c.zoom + v, ZOOM_MIN as int, ZOOM_MAX as int),
        ..c
    }
}

/// Adding a drag displacement to the pan offset, saturating at the
/// representable range.
pub open spec fn cam_pan_spec(c: CamView, dx: int, dy: int) -> CamView {
    CamView {
        target_x: clamp_spec(c.target_x + dx, -TARGET_LIMIT as int, TARGET_LIMIT as int),
        target_y: clamp_spec(c.target_y + dy, -TARGET_LIMIT as int, TARGET_LIMIT as int),
        ..c
    }
}

impl CameraState {
    /// A camera in its startup state.
    pub fn new() -> (c: CameraState)
        ensures
            c@ == cam_init(),
            cam_inv(c@),
    {
        CameraState { target_x: 0, target_y: 0, zoom: ZOOM_INIT, velocity: 0 }
    }

    /// The reset action: back to the startup state, whatever came before.
    pub fn reset(&mut self)
        ensures
            final(self)@ == cam_init(),
            cam_inv(final(self)@),
    {
        self.target_x = 0;
        self.target_y = 0;
        self.zoom = ZOOM_INIT;
        self.velocity = 0;
    }

    /// Apply a scroll event (line delta in micro-units) to the zoom
    /// velocity.
    pub fn add_scroll(&mut self, delta: i64)
        requires
            cam_inv(old(self)@),
        ensures
            cam_inv(final(self)@),
            final(self)@ == cam_scroll_spec(old(self)@, delta as int),
    {
        let d = clamp_i64(delta, -DELTA_LIMIT, DELTA_LIMIT);
        let acc = decay(d, 1, 100);
        self.velocity = clamp_i64(self.velocity + acc, -VEL_LIMIT, VEL_LIMIT);
    }

    /// The per-frame integration step: damp, integrate, clamp.
    pub fn integrate(&mut self)
        requires
            cam_inv(old(self)@),
        ensures
            cam_inv(final(self)@),
            final(self)@ == cam_integrate_spec(old(self)@),
            ZOOM_MIN <= final(self).zoom <= ZOOM_MAX,
    {
        let v = decay(self.velocity, 95, 100);
        self.velocity = v;
        self.zoom = clamp_i64(self.zoom + v, ZOOM_MIN, ZOOM_MAX);
    }

    /// Add a drag displacement to the pan offset.
    pub fn pan(&mut self, dx: i64, dy: i64)
        requires
            cam_inv(old(self)@),
            abs_i(dx as int) <= 2 * POS_LIMIT,
            abs_i(dy as int) <= 2 * POS_LIMIT,
        ensures
            cam_inv(final(self)@),
            final(self)@ == cam_pan_spec(old(self)@, dx as int, dy as int),
    {
        self.target_x = clamp_i64(self.target_x + dx, -TARGET_LIMIT, TARGET_LIMIT);
        self.target_y = clamp_i64(self.target_y + dy, -TARGET_LIMIT, TARGET_LIMIT);
    }
}

} // verus!
