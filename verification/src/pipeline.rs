//! Stages of the render pipeline.

pub mod glow;
