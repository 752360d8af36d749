//! The cursor state and the edge-wrap controller: the live pointer
//! position in window pixel coordinates (micro-units), and the drag
//! anchor that is `Some` exactly while the left button is held. While a
//! drag is active, the per-frame step teleports the cursor across window
//! edges so panning feels unbounded, and re-anchors the drag at the
//! wrapped position.

use vstd::prelude::*;

verus! {

use crate::fixed::{clamp_i64, clamp_spec, POS_LIMIT, SCALE};

/// A point in window pixel coordinates, in micro-units.
#[derive(Clone, Copy, PartialEq, Eq, Structural, Debug)]
pub struct Vec2 {
    pub x: i64,
    pub y: i64,
}

/// Mathematical model of the cursor: position and optional drag anchor
/// as unbounded integer coordinates in micro-units.
pub ghost struct CursorView {
    pub x: int,
    pub y: int,
    pub anchor: Option<(int, int)>,
}

/// The cursor state, coordinates in micro-units.
#[derive(Clone, Copy, PartialEq, Eq, Debug)]
pub struct CursorState {
    pub x: i64,
    pub y: i64,
    pub anchor: Option<Vec2>,
}

/// The model of an optional anchor.
pub open spec fn anchor_view(a: Option<Vec2>) -> Option<(int, int)> {
    match a {
        Option::None => Option::None,
        Option::Some(v) => Option::Some((v.x as int, v.y as int)),
    }
}

impl View for CursorState {
    type V = CursorView;

    open spec fn view(&self) -> CursorView {
        CursorView { x: self.x as int, y: self.y as int, anchor: anchor_view(self.anchor) }
    }
}

/// Well-formedness of the cursor: position and anchor are inside the
/// representable coordinate range.
pub open spec fn cursor_inv(c: CursorView) -> bool {
    &&& -POS_LIMIT <= c.x <= POS_LIMIT
    &&& -POS_LIMIT <= c.y <= POS_LIMIT
    &&& match c.anchor {
        Option::None => true,
        Option::Some((ax, ay)) => -POS_LIMIT <= ax <= POS_LIMIT && -POS_LIMIT <= ay <= POS_LIMIT,
    }
}

/// The cursor state at startup: at the origin, no drag.
pub open spec fn cursor_init() -> CursorView {
    CursorView { x: 0, y: 0, anchor: Option::None }
}

/// Edge wrap of a position against a window of `sw` by `sh` micro-units:
/// mutually exclusive branches tried in priority order — left edge to the
/// right edge, bottom edge to the top, one pixel short of the right edge
/// to one pixel in, one pixel short of the top edge to the bottom — then
/// a final corrective pass that keeps the result off the left edge.
pub open spec fn wrap_spec(x: int, y: int, sw: int, sh: int) -> (int, int) {
    let p = if x == 0 {
        (sw, y)
    } else if y == 0 {
        (x, sh)
    } else if x + SCALE >= sw {
        (SCALE as int, y)
    } else if y + SCALE >= sh {
        (x, 0)
    } else {
        (x, y)
    };
    if p.0 == 0 {
        (sw, p.1)
    } else {
        p
    }
}

/// Apply the edge wrap to a position.
pub fn wrap_position(x: i64, y: i64, sw: i64, sh: i64) -> (r: Vec2)
    requires
        -POS_LIMIT <= x <= POS_LIMIT,
        -POS_LIMIT <= y <= POS_LIMIT,
        0 <= sw <= POS_LIMIT,
        0 <= sh <= POS_LIMIT,
    ensures
        (r.x as int, r.y as int) == wrap_spec(x as int, y as int, sw as int, sh as int),
        -POS_LIMIT <= r.x <= POS_LIMIT,
        -POS_LIMIT <= r.y <= POS_LIMIT,
{
    let p = if x == 0 {
        Vec2 { x: sw, y }
    } else if y == 0 {
        Vec2 { x, y: sh }
    } else if x + SCALE >= sw {
        Vec2 { x: SCALE, y }
    } else if y + SCALE >= sh {
        Vec2 { x, y: 0 }
    } else {
        Vec2 { x, y }
    };
    if p.x == 0 {
        Vec2 { x: sw, y: p.y }
    } else {
        p
    }
}

/// The wrap keeps the cursor inside the window (up to the single-pixel
/// slack of the edge comparisons): for a window of at least one pixel a
/// side, a position inside `[0, sw] x [0, sh]` wraps to a position
/// inside `[0, sw] x [0, sh]`.
pub proof fn lemma_wrap_in_window(x: int, y: int, sw: int, sh: int)
    requires
        SCALE <= sw,
        SCALE <= sh,
        0 <= x <= sw,
        0 <= y <= sh,
    ensures
        0 <= wrap_spec(x, y, sw, sh).0 <= sw,
        0 <= wrap_spec(x, y, sw, sh).1 <= sh,
{
}

impl CursorState {
    /// A cursor in its startup state.
    pub fn new() -> (c: CursorState)
        ensures
            c@ == cursor_init(),
            cursor_inv(c@),
    {
        CursorState { x: 0, y: 0, anchor: Option::None }
    }

    /// A pointer-move event: the position becomes the new raw
    /// coordinates, clamped defensively into the representable range.
    pub fn move_to(&mut self, x: i64, y: i64)
        ensures
            final(self)@ == (CursorView {
                x: clamp_spec(x as int, -POS_LIMIT as int, POS_LIMIT as int),
                y: clamp_spec(y as int, -POS_LIMIT as int, POS_LIMIT as int),
                anchor: old(self)@.anchor,
            }),
            cursor_inv(old(self)@) ==> cursor_inv(final(self)@),
    {
        self.x = clamp_i64(x, -POS_LIMIT, POS_LIMIT);
        self.y = clamp_i64(y, -POS_LIMIT, POS_LIMIT);
    }

    /// A left-button press: the drag anchors at the current position.
    pub fn press(&mut self)
        ensures
            final(self)@ == (CursorView {
                anchor: Option::Some((old(self)@.x, old(self)@.y)),
                ..old(self)@
            }),
            cursor_inv(old(self)@) ==> cursor_inv(final(self)@),
    {
        self.anchor = Option::Some(Vec2 { x: self.x, y: self.y });
    }

    /// A left-button release: the drag ends.
    pub fn release(&mut self)
        ensures
            final(self)@ == (CursorView { anchor: Option::None, ..old(self)@ }),
            cursor_inv(old(self)@) ==> cursor_inv(final(self)@),
    {
        self.anchor = Option::None;
    }
}

} // verus!
