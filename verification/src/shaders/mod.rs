//! Shaders: what fills a shape.

use vstd::prelude::*;

pub mod conical_gradient;
pub mod gradient;
pub mod pattern;
pub mod radial_gradient;
pub mod sweep_gradient;

use crate::color::Color;
use crate::shaders::conical_gradient::{ConicalGradient, ConicalGradientView};
use crate::shaders::pattern::{Pattern, PatternView};
use crate::shaders::sweep_gradient::{SweepGradient, SweepGradientView};

verus! {

/// How a gradient or pattern continues outside of its own range.
#[derive(Clone, Copy, Debug, PartialEq, Eq, Structural)]
pub enum SpreadMode {
    /// The edge value goes on.
    Pad,
    /// The range repeats mirrored.
    Reflect,
    /// The range repeats.
    Repeat,
}

/// A shader. Gradient constructors return this rather than a gradient, so
/// that a degenerate gradient can come out as a solid color.
#[derive(Clone, Debug, PartialEq)]
pub enum Shader<'a> {
    /// One color everywhere.
    SolidColor(Color),
    /// A radial or two-point conical gradient.
    ConicalGradient(ConicalGradient),
    /// A sweep gradient.
    SweepGradient(SweepGradient),
    /// An image.
    Pattern(Pattern<'a>),
}

/// A [`Shader`] as a value of specifications.
pub enum ShaderView {
    SolidColor(Color),
    ConicalGradient(ConicalGradientView),
    SweepGradient(SweepGradientView),
    Pattern(PatternView),
}

impl<'a> View for Shader<'a> {
    type V = ShaderView;

    open spec fn view(&self) -> ShaderView {
        match *self {
            Shader::SolidColor(color) => ShaderView::SolidColor(color),
            Shader::ConicalGradient(gradient) => ShaderView::ConicalGradient(gradient@),
            Shader::SweepGradient(gradient) => ShaderView::SweepGradient(gradient@),
            Shader::Pattern(pattern) => ShaderView::Pattern(pattern@),
        }
    }
}

/// The view of a constructor's result.
pub open spec fn view_of(r: Option<Shader>) -> Option<ShaderView> {
    match r {
        Some(shader) => Some(shader@),
        None => None,
    }
}

} // verus!
