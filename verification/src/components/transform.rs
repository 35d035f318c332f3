//! Position, rotation and extent of a game object.

use crate::fixed::COORD_LIMIT;
use crate::types::vector2::Vector2;
use vstd::prelude::*;

verus! {

/// Where an object sits in the world, how it is turned, and how large it
/// is. Rectangular entities read `size`; circular ones (and lines, whose
/// extent is a half-length) read `radius`. Rotation is in thousandths of
/// a degree.
#[derive(Clone, Copy, Debug, PartialEq, Eq, Structural)]
pub struct Transform {
    pub position: Vector2,
    pub rotation: i64,
    pub size: Vector2,
    pub radius: i64,
}

impl Transform {
    /// The default transform as a value: at the origin, unrotated,
    /// 50 by 50 units, radius zero.
    pub open spec fn default_spec() -> Transform {
        Transform {
            position: Vector2 { x: 0, y: 0 },
            rotation: 0,
            size: Vector2 { x: 50_000, y: 50_000 },
            radius: 0,
        }
    }

    /// The default transform: at the origin, unrotated, 50 by 50 units,
    /// radius zero.
    pub fn new() -> (t: Self)
        ensures
            t == Self::default_spec(),
    {
        Transform {
            position: Vector2 { x: 0, y: 0 },
            rotation: 0,
            size: Vector2 { x: 50_000, y: 50_000 },
            radius: 0,
        }
    }

    /// Whether every coordinate is inside the range the screen projection
    /// can handle.
    pub open spec fn in_world_range(self) -> bool {
        &&& -COORD_LIMIT <= self.position.x <= COORD_LIMIT
        &&& -COORD_LIMIT <= self.position.y <= COORD_LIMIT
        &&& -COORD_LIMIT <= self.size.x <= COORD_LIMIT
        &&& -COORD_LIMIT <= self.size.y <= COORD_LIMIT
        &&& -COORD_LIMIT <= self.radius <= COORD_LIMIT
    }
}

} // verus!
