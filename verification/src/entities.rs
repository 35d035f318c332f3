//! Entities that live in the game world.

pub mod circle;
pub mod game_object;
pub mod game_view;
pub mod line;
pub mod rectangle;
pub mod triangle;
