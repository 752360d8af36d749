//! The orthographic projection extents recomputed every frame: the
//! window-pixel bounds of the visible world region, derived from the
//! window size, the zoom factor and the pan offset. Dividing the
//! window-space extents by the zoom before offsetting by the pan keeps
//! the zoom centered on the window center.

use vstd::prelude::*;

verus! {

use crate::camera::{ZOOM_MAX, ZOOM_MIN};
use crate::fixed::{abs_i, fdiv, fdiv_spec, POS_LIMIT, SCALE, TARGET_LIMIT};

/// The four orthographic extents, in micro-units of window pixels.
/// The near and far planes are fixed at minus one and one.
#[derive(Clone, Copy, PartialEq, Eq, Structural, Debug)]
pub struct OrthoBounds {
    pub left: i64,
    pub right: i64,
    pub bottom: i64,
    pub top: i64,
}

/// Left extent: `center - center/zoom - target_x/zoom`.
pub open spec fn ortho_left_spec(sw: int, zoom: int, tx: int) -> int {
    sw / 2 - fdiv_spec(sw / 2, zoom) - fdiv_spec(tx, zoom)
}

/// Right extent: `center + center/zoom - target_x/zoom`.
pub open spec fn ortho_right_spec(sw: int, zoom: int, tx: int) -> int {
    sw / 2 + fdiv_spec(sw / 2, zoom) - fdiv_spec(tx, zoom)
}

/// Bottom extent: `center - center/zoom + target_y/zoom`.
pub open spec fn ortho_bottom_spec(sh: int, zoom: int, ty: int) -> int {
    sh / 2 - fdiv_spec(sh / 2, zoom) + fdiv_spec(ty, zoom)
}

/// Top extent: `center + center/zoom + target_y/zoom`.
pub open spec fn ortho_top_spec(sh: int, zoom: int, ty: int) -> int {
    sh / 2 + fdiv_spec(sh / 2, zoom) + fdiv_spec(ty, zoom)
}

/// Compute the four orthographic extents for a window of `sw` by `sh`
/// micro-units, a zoom factor in its legal range and a pan offset in its
/// representable range.
pub fn projection_bounds(sw: i64, sh: i64, zoom: i64, tx: i64, ty: i64) -> (b: OrthoBounds)
    requires
        0 <= sw <= POS_LIMIT,
        0 <= sh <= POS_LIMIT,
        ZOOM_MIN <= zoom <= ZOOM_MAX,
        -TARGET_LIMIT <= tx <= TARGET_LIMIT,
        -TARGET_LIMIT <= ty <= TARGET_LIMIT,
    ensures
        b.left == ortho_left_spec(sw as int, zoom as int, tx as int),
        b.right == ortho_right_spec(sw as int, zoom as int, tx as int),
        b.bottom == ortho_bottom_spec(sh as int, zoom as int, ty as int),
        b.top == ortho_top_spec(sh as int, zoom as int, ty as int),
{
    let cx: i64 = sw / 2;
    let cy: i64 = sh / 2;
    let czx: i64 = fdiv(cx, zoom);
    let czy: i64 = fdiv(cy, zoom);
    let tzx: i64 = fdiv(tx, zoom);
    let tzy: i64 = fdiv(ty, zoom);
    proof {
        assert(abs_i(czx as int) <= abs_i(cx as int) * SCALE);
        assert(abs_i(tzx as int) <= abs_i(tx as int) * SCALE);
        assert(abs_i(czy as int) <= abs_i(cy as int) * SCALE);
        assert(abs_i(tzy as int) <= abs_i(ty as int) * SCALE);
    }
    OrthoBounds {
        left: cx - czx - tzx,
        right: cx + czx - tzx,
        bottom: cy - czy + tzy,
        top: cy + czy + tzy,
    }
}

} // verus!
