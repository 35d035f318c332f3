//! Components attached to game objects.

pub mod transform;
