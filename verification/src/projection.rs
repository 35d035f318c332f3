//! World-space to screen-space projection rules shared by the drawable
//! entities.
//!
//! World space has its origin at the screen center; screen space has it
//! at the top-left corner. Each frame an entity translates its world
//! position by half the screen size, subtracts half the camera offset
//! (unless it is a parallax entity), and, if it is bounded, first clamps
//! its world position so the whole shape stays on screen.

use vstd::prelude::*;

verus! {

/// Fixed-point steps in half a unit (half of `crate::fixed::SCALE`).
pub const HALF_SCALE: i64 = 500;

/// The camera offset an entity sees on one axis: parallax entities ignore
/// the camera entirely.
pub open spec fn viewport_component(is_parallax: bool, camera: int) -> int {
    if is_parallax {
        0
    } else {
        camera
    }
}

/// A world coordinate clamped so that a shape reaching `half_extent` to
/// each side stays inside a screen reaching `half_screen` to each side,
/// under a camera offset of `half_view` (all halved fixed-point values).
pub open spec fn bounded_axis(x: int, half_screen: int, half_extent: int, half_view: int) -> int {
    let max = half_screen - half_extent + half_view;
    let min = -half_screen + half_extent + half_view;
    if x > max {
        max
    } else if x < min {
        min
    } else {
        x
    }
}

/// A bounded entity that fits the screen cannot leave it: after clamping,
/// the far screen-space edge of the shape is at most the screen size and
/// the near edge is at least zero.
pub proof fn lemma_bounded_axis_on_screen(
    x: int,
    half_screen: int,
    half_extent: int,
    half_view: int,
)
    requires
        0 <= half_extent <= half_screen,
    ensures
        ({
            let c = bounded_axis(x, half_screen, half_extent, half_view);
            &&& c + half_screen + half_extent - half_view <= 2 * half_screen
            &&& 0 <= c + half_screen - half_extent - half_view
        }),
{
}

} // verus!
