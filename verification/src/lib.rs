//! Core logic of an interactive escape-time fractal explorer.
//!
//! Host-side 64-bit real values are carried throughout as their IEEE-754
//! bit patterns (`u64`), which is exactly the form in which they cross the
//! boundary to the evaluation pipeline.

pub mod format_backtrace;
pub mod fractal;
pub mod input;
pub mod material;
pub mod narrow;
pub mod parameters;
pub mod render;
pub mod shader_float;
pub mod view_math;
