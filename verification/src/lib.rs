//! A minimal 2D game-application core: fixed-point value types, an input
//! state machine, a camera with screen shake, and drawable entities that
//! project world-space state into screen-space draw commands.
//!
//! All continuous quantities (positions, sizes, colors, seconds, degrees)
//! are fixed-point integers in thousandths of a unit; see [`fixed`].

pub mod app;
pub mod components;
pub mod entities;
pub mod fixed;
pub mod input;
pub mod projection;
pub mod rendering;
pub mod time;
pub mod types;
