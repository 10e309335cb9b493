//! A verified planning core for a small 2D shape renderer.
//!
//! The crate decides *what* is sent to the GPU and in which order: the index
//! data of the shared geometry, the byte layout of per-shape instance records,
//! the per-kind pipeline table, when the aspect ratio is uploaded, and the
//! command stream of every frame. Talking to the window system and to the GPU device
//! is left to the caller, which executes the commands this crate returns.
//!
//! Single-precision values are never interpreted here. Wherever one has to be
//! carried (a position, a scale, a matrix entry, the aspect ratio) it travels
//! as its IEEE-754 bit pattern in a `u32`, and whatever has to be computed or
//! compared in single precision is handed in by the caller.

pub mod bytes;
pub mod geometry;
pub mod pipeline;
pub mod shape;
pub mod uniforms;
pub mod render;
pub mod theorems;
