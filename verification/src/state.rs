//! The overlay engine: one state object owning the camera, the cursor,
//! the flashlight and the control-modifier flag. Raw input events are
//! translated into state mutations one at a time, and once per frame the
//! whole state is integrated and flattened into the shader-visible
//! parameter block.

use vstd::prelude::*;

verus! {

use crate::camera::{
    cam_init, cam_integrate_spec, cam_inv, cam_pan_spec, cam_scroll_spec, CameraState, CamView,
};
use crate::cursor::{
    cursor_init, cursor_inv, wrap_position, wrap_spec, CursorState, CursorView, Vec2,
};
use crate::fixed::{DIM_LIMIT, SCALE};
use crate::flashlight::{
    flash_init, flash_integrate_spec, flash_inv, flash_scroll_spec, flash_toggle_spec,
    FlashlightState, FlashView,
};
use crate::projection::{
    ortho_bottom_spec, ortho_left_spec, ortho_right_spec, ortho_top_spec, projection_bounds,
};

/// A raw input event, already reduced to plain values: coordinates and
/// scroll deltas in micro-units. `Other` stands for every event the
/// overlay does not react to.
#[derive(Clone, Copy, PartialEq, Eq, Structural, Debug)]
pub enum InputEvent {
    PointerMoved { x: i64, y: i64 },
    LeftPressed,
    LeftReleased,
    Scroll { delta: i64 },
    ControlKey,
    FlashlightKey,
    ResetKey,
    Other,
}

/// Mathematical model of the whole overlay state.
pub ghost struct OverlayView {
    pub camera: CamView,
    pub cursor: CursorView,
    pub flashlight: FlashView,
    pub ctrl_held: bool,
}

/// The overlay state: everything the input translator and the per-frame
/// step read and write.
#[derive(Clone, Copy, PartialEq, Eq, Debug)]
pub struct OverlayState {
    pub camera: CameraState,
    pub cursor: CursorState,
    pub flashlight: FlashlightState,
    pub ctrl_held: bool,
}

impl View for OverlayState {
    type V = OverlayView;

    open spec fn view(&self) -> OverlayView {
        OverlayView {
            camera: self.camera@,
            cursor: self.cursor@,
            flashlight: self.flashlight@,
            ctrl_held: self.ctrl_held,
        }
    }
}

/// Well-formedness of the whole overlay state.
pub open spec fn overlay_inv(s: OverlayView) -> bool {
    &&& cam_inv(s.camera)
    &&& cursor_inv(s.cursor)
    &&& flash_inv(s.flashlight)
}

/// The overlay state at startup.
pub open spec fn overlay_init() -> OverlayView {
    OverlayView {
        camera: cam_init(),
        cursor: cursor_init(),
        flashlight: flash_init(),
        ctrl_held: false,
    }
}

/// Defensive clamp of a raw coordinate into the representable range.
pub open spec fn pos_clamp(v: int) -> int {
    crate::fixed::clamp_spec(v, -crate::fixed::POS_LIMIT as int, crate::fixed::POS_LIMIT as int)
}

/// What one input event does to the overlay state.
///
/// The control and reset keys react to any key transition, press or
/// release alike — the control flag is a toggle, not held-state tracking.
pub open spec fn apply_event_spec(s: OverlayView, e: InputEvent) -> OverlayView {
    match e {
        InputEvent::PointerMoved { x, y } => OverlayView {
            cursor: CursorView { x: pos_clamp(x as int), y: pos_clamp(y as int), ..s.cursor },
            ..s
        },
        InputEvent::LeftPressed => OverlayView {
            cursor: CursorView {
                anchor: Option::Some((s.cursor.x, s.cursor.y)),
                ..s.cursor
            },
            ..s
        },
        InputEvent::LeftReleased => OverlayView {
            cursor: CursorView { anchor: Option::None, ..s.cursor },
            ..s
        },
        InputEvent::Scroll { delta } => {
            if s.ctrl_held {
                OverlayView { flashlight: flash_scroll_spec(s.flashlight, delta as int), ..s }
            } else {
                OverlayView { camera: cam_scroll_spec(s.camera, delta as int), ..s }
            }
        },
        InputEvent::ControlKey => OverlayView { ctrl_held: !s.ctrl_held, ..s },
        InputEvent::FlashlightKey => OverlayView {
            flashlight: flash_toggle_spec(s.flashlight),
            ..s
        },
        InputEvent::ResetKey => OverlayView { camera: cam_init(), ..s },
        InputEvent::Other => s,
    }
}

/// Whether an event is consumed by the overlay (suppressing any default
/// handling) rather than passed through.
pub open spec fn consumed_spec(e: InputEvent) -> bool {
    !(e is Other)
}

/// The drag resolution part of the per-frame step: while a drag is
/// active, the displacement of the cursor from its anchor pans the
/// camera, the cursor is wrapped across the window edges, and the drag
/// re-anchors at the wrapped position.
pub open spec fn drag_step_spec(s: OverlayView, sw: int, sh: int) -> OverlayView {
    match s.cursor.anchor {
        Option::None => s,
        Option::Some((ax, ay)) => {
            let p = wrap_spec(s.cursor.x, s.cursor.y, sw, sh);
            OverlayView {
                camera: cam_pan_spec(s.camera, s.cursor.x - ax, s.cursor.y - ay),
                cursor: CursorView { x: p.0, y: p.1, anchor: Option::Some(p) },
                ..s
            }
        },
    }
}

/// The whole per-frame step: drag resolution, then flashlight and camera
/// integration. `sw` and `sh` are the window dimensions in micro-units.
pub open spec fn frame_step_spec(s: OverlayView, sw: int, sh: int) -> OverlayView {
    let s1 = drag_step_spec(s, sw, sh);
    OverlayView {
        camera: cam_integrate_spec(s1.camera),
        flashlight: flash_integrate_spec(s1.flashlight),
        ..s1
    }
}

/// The position the OS cursor must be teleported to this frame:
/// the wrapped position while a drag is active, nothing otherwise.
pub open spec fn warp_spec(s: OverlayView, sw: int, sh: int) -> Option<(int, int)> {
    match s.cursor.anchor {
        Option::None => Option::None,
        Option::Some(_) => Option::Some(wrap_spec(s.cursor.x, s.cursor.y, sw, sh)),
    }
}

/// Mathematical model of the shader parameter block.
pub ghost struct ParamsView {
    pub left: int,
    pub right: int,
    pub bottom: int,
    pub top: int,
    pub cursor_x: int,
    pub cursor_y: int,
    pub flashlight_enabled: bool,
    pub flashlight_radius: int,
}

/// The shader-visible parameter block, rebuilt every frame: the four
/// orthographic extents, the live cursor position and the flashlight
/// fields, all in micro-units.
#[derive(Clone, Copy, PartialEq, Eq, Structural, Debug)]
pub struct OverlayParams {
    pub left: i64,
    pub right: i64,
    pub bottom: i64,
    pub top: i64,
    pub cursor_x: i64,
    pub cursor_y: i64,
    pub flashlight_enabled: bool,
    pub flashlight_radius: i64,
}

impl View for OverlayParams {
    type V = ParamsView;

    open spec fn view(&self) -> ParamsView {
        ParamsView {
            left: self.left as int,
            right: self.right as int,
            bottom: self.bottom as int,
            top: self.top as int,
            cursor_x: self.cursor_x as int,
            cursor_y: self.cursor_y as int,
            flashlight_enabled: self.flashlight_enabled,
            flashlight_radius: self.flashlight_radius as int,
        }
    }
}

/// The parameter block derived from an (already integrated) overlay
/// state and the window dimensions in micro-units.
pub open spec fn params_spec(s: OverlayView, sw: int, sh: int) -> ParamsView {
    ParamsView {
        left: ortho_left_spec(sw, s.camera.zoom, s.camera.target_x),
        right: ortho_right_spec(sw, s.camera.zoom, s.camera.target_x),
        bottom: ortho_bottom_spec(sh, s.camera.zoom, s.camera.target_y),
        top: ortho_top_spec(sh, s.camera.zoom, s.camera.target_y),
        cursor_x: s.cursor.x,
        cursor_y: s.cursor.y,
        flashlight_enabled: s.flashlight.enabled,
        flashlight_radius: s.flashlight.radius,
    }
}

/// The model of an optional cursor warp.
pub open spec fn warp_view(w: Option<Vec2>) -> Option<(int, int)> {
    match w {
        Option::None => Option::None,
        Option::Some(v) => Option::Some((v.x as int, v.y as int)),
    }
}

/// Everything one frame hands to the renderer: the parameter block to
/// upload, and where to teleport the OS cursor, if anywhere.
#[derive(Clone, Copy, PartialEq, Eq, Debug)]
pub struct FrameOutput {
    pub params: OverlayParams,
    pub cursor_warp: Option<Vec2>,
}

impl OverlayState {
    /// The overlay state at startup.
    pub fn new() -> (s: OverlayState)
        ensures
            s@ == overlay_init(),
            overlay_inv(s@),
    {
        OverlayState {
            camera: CameraState::new(),
            cursor: CursorState::new(),
            flashlight: FlashlightState::new(),
            ctrl_held: false,
        }
    }

    /// Translate one raw input event into a state mutation; the result
    /// says whether the event was consumed.
    pub fn apply_event(&mut self, event: InputEvent) -> (consumed: bool)
        requires
            overlay_inv(old(self)@),
        ensures
            overlay_inv(final(self)@),
            final(self)@ == apply_event_spec(old(self)@, event),
            consumed == consumed_spec(event),
    {
        match event {
            InputEvent::PointerMoved { x, y } => {
                self.cursor.move_to(x, y);
                true
            },
            InputEvent::LeftPressed => {
                self.cursor.press();
                true
            },
            InputEvent::LeftReleased => {
                self.cursor.release();
                true
            },
            InputEvent::Scroll { delta } => {
                if self.ctrl_held {
                    self.flashlight.add_scroll(delta);
                } else {
                    self.camera.add_scroll(delta);
                }
                true
            },
            InputEvent::ControlKey => {
                self.ctrl_held = !self.ctrl_held;
                true
            },
            InputEvent::FlashlightKey => {
                self.flashlight.toggle();
                true
            },
            InputEvent::ResetKey => {
                self.camera.reset();
                true
            },
            InputEvent::Other => false,
        }
    }

    /// The per-frame step: resolve an active drag (pan plus cursor
    /// wrap), integrate the flashlight and the camera, and flatten the
    /// result into the parameter block for a window of `width` by
    /// `height` pixels.
    pub fn frame_update(&mut self, width: u32, height: u32) -> (out: FrameOutput)
        requires
            overlay_inv(old(self)@),
            width <= DIM_LIMIT,
            height <= DIM_LIMIT,
        ensures
            overlay_inv(final(self)@),
            final(self)@ == frame_step_spec(old(self)@, width * SCALE, height * SCALE),
            out.params@ == params_spec(final(self)@, width * SCALE, height * SCALE),
            warp_view(out.cursor_warp) == warp_spec(old(self)@, width * SCALE, height * SCALE),
    {
        let sw: i64 = (width as i64) * SCALE;
        let sh: i64 = (height as i64) * SCALE;
        let mut cursor_warp: Option<Vec2> = Option::None;
        match self.cursor.anchor {
            Option::Some(a) => {
                let dx = self.cursor.x - a.x;
                let dy = self.cursor.y - a.y;
                self.camera.pan(dx, dy);
                let w = wrap_position(self.cursor.x, self.cursor.y, sw, sh);
                self.cursor.x = w.x;
                self.cursor.y = w.y;
                self.cursor.anchor = Option::Some(w);
                cursor_warp = Option::Some(w);
            },
            Option::None => {},
        }
        self.flashlight.integrate();
        self.camera.integrate();
        let b = projection_bounds(
            sw,
            sh,
            self.camera.zoom,
            self.camera.target_x,
            self.camera.target_y,
        );
        FrameOutput {
            params: OverlayParams {
                left: b.left,
                right: b.right,
                bottom: b.bottom,
                top: b.top,
                cursor_x: self.cursor.x,
                cursor_y: self.cursor.y,
                flashlight_enabled: self.flashlight.enabled,
                flashlight_radius: self.flashlight.radius,
            },
            cursor_warp,
        }
    }
}

} // verus!
