//! Plain value types: vectors, colors, fonts.

pub mod color;
pub mod color32;
pub mod font;
pub mod vector2;
