//! Game objects: a transform plus visibility, parallax and bounding flags.

use crate::components::transform::Transform;
use crate::types::vector2::Vector2;
use vstd::prelude::*;

verus! {

/// Full turn in thousandths of a degree.
pub const FULL_TURN: i64 = 360_000;

/// Depth layer a drawable entity is rendered on; higher layers draw in
/// front of lower ones.
#[derive(Clone, Copy, Debug, PartialEq, Eq, Structural)]
pub enum RenderLayer {
    Layer1,
    Layer2,
    Layer3,
    Layer4,
    Layer5,
    Layer6,
    Layer7,
    Layer8,
    Layer9,
    Layer10,
}

/// Position of a layer in the stack, front layers highest.
pub open spec fn layer_index(layer: RenderLayer) -> int {
    match layer {
        RenderLayer::Layer1 => 0,
        RenderLayer::Layer2 => 1,
        RenderLayer::Layer3 => 2,
        RenderLayer::Layer4 => 3,
        RenderLayer::Layer5 => 4,
        RenderLayer::Layer6 => 5,
        RenderLayer::Layer7 => 6,
        RenderLayer::Layer8 => 7,
        RenderLayer::Layer9 => 8,
        RenderLayer::Layer10 => 9,
    }
}

/// Fixed-point depth of a layer: its index spread over `[0, 1)` in steps
/// of a tenth.
pub open spec fn layer_depth(layer: RenderLayer) -> int {
    layer_index(layer) * 100
}

impl RenderLayer {
    /// Fixed-point depth of this layer.
    pub fn depth(self) -> (d: i64)
        ensures
            d == layer_depth(self),
    {
        match self {
            RenderLayer::Layer1 => 0,
            RenderLayer::Layer2 => 100,
            RenderLayer::Layer3 => 200,
            RenderLayer::Layer4 => 300,
            RenderLayer::Layer5 => 400,
            RenderLayer::Layer6 => 500,
            RenderLayer::Layer7 => 600,
            RenderLayer::Layer8 => 700,
            RenderLayer::Layer9 => 800,
            RenderLayer::Layer10 => 900,
        }
    }
}

/// An entity that exists in the game world.
#[derive(Clone, Copy, Debug, PartialEq, Eq, Structural)]
pub struct GameObject {
    pub transform: Transform,
    pub is_visible: bool,
    pub is_parallax: bool,
    pub is_bounded: bool,
}

impl GameObject {
    /// The default game object as a value: visible, unbounded,
    /// non-parallax, default transform.
    pub open spec fn default_spec() -> GameObject {
        GameObject {
            transform: Transform::default_spec(),
            is_visible: true,
            is_parallax: false,
            is_bounded: false,
        }
    }

    /// A visible, unbounded, non-parallax object with the default transform.
    pub fn new() -> (g: Self)
        ensures
            g == Self::default_spec(),
    {
        GameObject {
            transform: Transform::new(),
            is_visible: true,
            is_parallax: false,
            is_bounded: false,
        }
    }

    /// Move the object by a movement vector.
    pub fn translate(&mut self, movement: Vector2)
        requires
            i64::MIN <= old(self).transform.position.x + movement.x <= i64::MAX,
            i64::MIN <= old(self).transform.position.y + movement.y <= i64::MAX,
        ensures
            final(self).transform.position.x == old(self).transform.position.x + movement.x,
            final(self).transform.position.y == old(self).transform.position.y + movement.y,
            final(self).transform.rotation == old(self).transform.rotation,
            final(self).transform.size == old(self).transform.size,
            final(self).transform.radius == old(self).transform.radius,
            final(self).is_visible == old(self).is_visible,
            final(self).is_parallax == old(self).is_parallax,
            final(self).is_bounded == old(self).is_bounded,
    {
        self.transform.position.translate(movement);
    }

    /// Turn the object by an angle in thousandths of a degree. A result at
    /// or beyond a full turn resets to zero rather than wrapping; partial
    /// turns accumulate.
    pub fn rotate(&mut self, rotation: i64)
        requires
            i64::MIN <= old(self).transform.rotation + rotation <= i64::MAX,
        ensures
            final(self).transform.rotation == if old(self).transform.rotation + rotation
                >= FULL_TURN {
                0 as int
            } else {
                old(self).transform.rotation + rotation
            },
            final(self).transform.position == old(self).transform.position,
            final(self).transform.size == old(self).transform.size,
            final(self).transform.radius == old(self).transform.radius,
            final(self).is_visible == old(self).is_visible,
            final(self).is_parallax == old(self).is_parallax,
            final(self).is_bounded == old(self).is_bounded,
    {
        self.transform.rotation = self.transform.rotation + rotation;
        if self.transform.rotation >= FULL_TURN {
            self.transform.rotation = 0;
        }
    }

    /// Grow (or shrink) the object's width and height by a vector.
    pub fn scale(&mut self, scale: Vector2)
        requires
            i64::MIN <= old(self).transform.size.x + scale.x <= i64::MAX,
            i64::MIN <= old(self).transform.size.y + scale.y <= i64::MAX,
        ensures
            final(self).transform.size.x == old(self).transform.size.x + scale.x,
            final(self).transform.size.y == old(self).transform.size.y + scale.y,
            final(self).transform.position == old(self).transform.position,
            final(self).transform.rotation == old(self).transform.rotation,
            final(self).transform.radius == old(self).transform.radius,
            final(self).is_visible == old(self).is_visible,
            final(self).is_parallax == old(self).is_parallax,
            final(self).is_bounded == old(self).is_bounded,
    {
        self.transform.size.translate(scale);
    }

    /// Remove the object from the world. Objects leave the world by going
    /// out of scope, so this changes nothing.
    pub fn destroy(&mut self)
        ensures
            *final(self) == *old(self),
    {
    }
}

} // verus!
