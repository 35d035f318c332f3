//! Screen-space draw primitives.
//!
//! Entities project their world-space state into one of these each frame
//! and submit it to the application's draw list; a rendering backend turns
//! the list into actual draw calls.

use crate::types::color::Color;
use crate::types::vector2::Vector2;
use vstd::prelude::*;

verus! {

/// One entry of the draw list, in screen coordinates (fixed-point pixels,
/// origin at the top-left of the window).
#[derive(Clone, Copy, Debug, PartialEq, Eq, Structural)]
pub enum Shape {
    /// An axis-aligned rectangle given by two opposite corners, rotated
    /// about `center` by `rotation` thousandths of a degree.
    Rect {
        top_left: Vector2,
        bottom_right: Vector2,
        stroke_size: i64,
        stroke_color: Color,
        fill_color: Color,
        rotation: i64,
        center: Vector2,
        zdepth: i64,
    },
    /// A circle approximated by `sides` segments.
    Circle {
        center: Vector2,
        radius: i64,
        sides: u32,
        stroke_size: i64,
        stroke_color: Color,
        fill_color: Color,
        zdepth: i64,
    },
    /// A segment from `from` to `to`, rotated about `center` by `rotation`
    /// thousandths of a degree.
    Line {
        from: Vector2,
        to: Vector2,
        stroke_size: i64,
        stroke_color: Color,
        fill_color: Color,
        rotation: i64,
        center: Vector2,
        zdepth: i64,
    },
    /// A triangle given by its three vertices, rotated about `center` by
    /// `rotation` thousandths of a degree.
    Triangle {
        top: Vector2,
        bottom_left: Vector2,
        bottom_right: Vector2,
        stroke_size: i64,
        stroke_color: Color,
        fill_color: Color,
        rotation: i64,
        center: Vector2,
        zdepth: i64,
    },
}

/// Redrawing an entity that already holds a draw-list slot replaces the
/// slot instead of appending: withdrawing the old entry and pushing the
/// new one keeps the list's length, so an entity drawn once per frame
/// accounts for exactly one entry, frame after frame.
pub proof fn lemma_redraw_keeps_list_length(shapes: Seq<Shape>, index: int, shape: Shape)
    requires
        0 <= index < shapes.len(),
    ensures
        shapes.remove(index).push(shape).len() == shapes.len(),
{
}

} // verus!
