//! Inputs of shader programs.

pub mod input;

pub use input::{InstanceInput, ToUniforms, UniformInput};
