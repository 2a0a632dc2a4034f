//! Rendering.
pub mod renderer;
