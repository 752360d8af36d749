//! The flashlight state: an on/off toggle and a radius with its own
//! damped velocity. Scrolling with the control modifier held kicks the
//! radius velocity; once per frame the velocity is damped by 9/10 and
//! integrated into the radius, which is clamped into its legal range.

use vstd::prelude::*;

verus! {

use crate::fixed::{clamp_i64, clamp_spec, decay, scaled, DELTA_LIMIT, VEL_LIMIT};

/// Smallest flashlight radius, in micro-units (30.0 pixels).
pub const RADIUS_MIN: i64 = 30_000_000;

/// Largest flashlight radius, in micro-units (1000.0 pixels).
pub const RADIUS_MAX: i64 = 1_000_000_000;

/// Flashlight radius at startup, in micro-units (130.0 pixels).
pub const RADIUS_INIT: i64 = 130_000_000;

/// Mathematical model of the flashlight: enabled flag, radius and radius
/// velocity as unbounded integers in micro-units.
pub ghost struct FlashView {
    pub enabled: bool,
    pub radius: int,
    pub radius_velocity: int,
}

/// The flashlight state, radius in micro-units.
#[derive(Clone, Copy, PartialEq, Eq, Structural, Debug)]
pub struct FlashlightState {
    pub enabled: bool,
    pub radius: i64,
    pub radius_velocity: i64,
}

impl View for FlashlightState {
    type V = FlashView;

    open spec fn view(&self) -> FlashView {
        FlashView {
            enabled: self.enabled,
            radius: self.radius as int,
            radius_velocity: self.radius_velocity as int,
        }
    }
}

/// Well-formedness of the flashlight: the radius is inside its legal
/// range and its velocity inside the representable range.
pub open spec fn flash_inv(f: FlashView) -> bool {
    &&& RADIUS_MIN <= f.radius <= RADIUS_MAX
    &&& -VEL_LIMIT <= f.radius_velocity <= VEL_LIMIT
}

/// The flashlight state at startup: disabled, at its initial radius,
/// at rest.
pub open spec fn flash_init() -> FlashView {
    FlashView { enabled: false, radius: RADIUS_INIT as int, radius_velocity: 0 }
}

/// One scroll event with the control modifier held: the (defensively
/// clamped) line delta, times one hundredth, times two hundred — that is,
/// twice the delta — is added to the radius velocity.
pub open spec fn flash_scroll_spec(f: FlashView, delta: int) -> FlashView {
    FlashView {
        radius_velocity: clamp_spec(
            f.radius_velocity + 2 * clamp_spec(delta, -DELTA_LIMIT as int, DELTA_LIMIT as int),
            -VEL_LIMIT as int,
            VEL_LIMIT as int,
        ),
        ..f
    }
}

/// The per-frame flashlight integration: damp the radius velocity by
/// 9/10, add it to the radius, and clamp the radius into its legal range.
pub open spec fn flash_integrate_spec(f: FlashView) -> FlashView {
    let v = scaled(f.radius_velocity, 9, 10);
    FlashView {
        radius_velocity: v,
        radius: clamp_spec(f.radius + v, RADIUS_MIN as int, RADIUS_MAX as int),
        ..f
    }
}

/// Flipping the enabled flag, touching nothing else.
pub open spec fn flash_toggle_spec(f: FlashView) -> FlashView {
    FlashView { enabled: !f.enabled, ..f }
}

impl FlashlightState {
    /// A flashlight in its startup state.
    pub fn new() -> (f: FlashlightState)
        ensures
            f@ == flash_init(),
            flash_inv(f@),
    {
        FlashlightState { enabled: false, radius: RADIUS_INIT, radius_velocity: 0 }
    }

    /// Flip the enabled flag; the radius and its velocity are untouched.
    pub fn toggle(&mut self)
        ensures
            final(self)@ == flash_toggle_spec(old(self)@),
            final(self).radius == old(self).radius,
            final(self).radius_velocity == old(self).radius_velocity,
            final(self).enabled == !old(self).enabled,
    {
        self.enabled = !self.enabled;
    }

    /// Apply a control-scroll event (line delta in micro-units) to the
    /// radius velocity.
    pub fn add_scroll(&mut self, delta: i64)
        requires
            flash_inv(old(self)@),
        ensures
            flash_inv(final(self)@),
            final(self)@ == flash_scroll_spec(old(self)@, delta as int),
    {
        let d = clamp_i64(delta, -DELTA_LIMIT, DELTA_LIMIT);
        self.radius_velocity = clamp_i64(self.radius_velocity + 2 * d, -VEL_LIMIT, VEL_LIMIT);
    }

    /// The per-frame integration step: damp, integrate, clamp.
    pub fn integrate(&mut self)
        requires
            flash_inv(old(self)@),
        ensures
            flash_inv(final(self)@),
            final(self)@ == flash_integrate_spec(old(self)@),
            RADIUS_MIN <= final(self).radius <= RADIUS_MAX,
            final(self).enabled == old(self).enabled,
    {
        let v = decay(self.radius_velocity, 9, 10);
        self.radius_velocity = v;
        self.radius = clamp_i64(self.radius + v, RADIUS_MIN, RADIUS_MAX);
    }
}

} // verus!
