//! The deciding half of a 2D rasterizer's shaders and paths.
//!
//! Gradients are classified into the closed form that a per-pixel formula
//! can evaluate without looking at the geometry again: radial, strip or
//! focal for two circles, and a range of turns for a sweep. Patterns pick
//! their sampling, mipmaps are filtered down level by level, and paths are
//! built segment by segment. What comes out for a pipeline is the ordered
//! list of its stages and what they read.
//!
//! Numbers are single precision and are held by their bit patterns (see
//! [`scalar`] and [`value`]): sign, order, equality and tolerances are
//! decided on the bits, exactly. Nothing in this crate rounds. Where a
//! decision hangs on arithmetic that does (a distance, a quotient, whether
//! a matrix has an inverse), the caller measures it in single precision
//! and hands the measurement in, and the matrix of a gradient is named by
//! its steps (see [`transform::MatrixStep`]) for the caller to evaluate.

pub mod blend_mode;
pub mod bounds;
pub mod color;
pub mod halving;
pub mod mipmap;
pub mod path;
pub mod path_builder;
pub mod pipeline;
pub mod pixmap;
pub mod point;
pub mod scalar;
pub mod shaders;
pub mod transform;
pub mod value;
