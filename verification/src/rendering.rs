//! Draw primitives handed to a rendering backend.

pub mod shape;
pub mod vertex;
