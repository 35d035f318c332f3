//! A single vertex as a rendering backend consumes it.

use vstd::prelude::*;

verus! {

/// Position and color of one vertex, in fixed-point values.
#[derive(Clone, Copy, Debug, PartialEq, Eq)]
pub struct Vertex {
    /// X and Y coordinates of the vertex.
    pub positions: [i64; 2],
    /// Red, green, blue and alpha channels of the vertex color.
    pub color: [i64; 4],
}

} // verus!
