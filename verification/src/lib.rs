//! Composition of shader uniform sources, and a glow effect built on it.
//!
//! The first half ([`shader::input`]) lets independently written pieces of
//! draw-time data be combined into one ordered set of named values for a GPU
//! program. The second half ([`pipeline::glow`]) is a bloom effect that
//! blurs an extra render target between two ping-pong textures.
//!
//! The crate decides *what* is sent to the GPU and in which order; sending it
//! is left to a driver, which performs the [`gpu`] commands one at a time and
//! reports how each went.

pub mod glium_types;
pub mod gpu;
pub mod pipeline;
pub mod shader;

pub use gpu::{CreationError, DrawError};
