//! Stateful semantic layer of a Canvas-2D style rendering context.
//!
//! The context keeps the style state, its save/restore stack and the current
//! path, and turns each drawing request into an ordered list of backend
//! commands that a rasterizing surface then performs.
pub mod color;
pub mod context;
pub mod dye;
pub mod laws;
pub mod paint;
pub mod path;
pub mod refs;
pub mod scalar;
pub mod state;
pub mod style;
