//! Colors and the color spaces that a pipeline works in.

use vstd::prelude::*;
use crate::pipeline::Stage;
use crate::scalar::{Scalar, ONE_BITS};

verus! {

/// An RGBA color with straight alpha. In a well-formed color every
/// component is a number of `[0, 1]`.
#[derive(Clone, Copy, Debug, PartialEq)]
pub struct Color {
    pub r: Scalar,
    pub g: Scalar,
    pub b: Scalar,
    pub a: Scalar,
}

/// Whether a number lies in `[0, 1]`.
pub open spec fn is_normalized(x: Scalar) -> bool {
    x.spec_is_finite() && 0 <= x.rank() <= ONE_BITS as int
}

/// Runtime form of [`is_normalized`].
pub fn check_normalized(x: Scalar) -> (r: bool)
    ensures
        r == is_normalized(x),
{
    x.is_finite() && Scalar::zero().le(x) && x.le(Scalar::one())
}

impl Color {
    /// Every component lies in `[0, 1]`.
    pub open spec fn wf(self) -> bool {
        is_normalized(self.r) && is_normalized(self.g) && is_normalized(self.b) && is_normalized(
            self.a,
        )
    }

    /// Alpha is one.
    pub open spec fn spec_is_opaque(self) -> bool {
        self.a.same(Scalar { bits: ONE_BITS })
    }

    /// Creates a color; `None` unless every component lies in `[0, 1]`.
    pub fn from_rgba(r: Scalar, g: Scalar, b: Scalar, a: Scalar) -> (c: Option<Color>)
        ensures
            c == (if (Color { r, g, b, a }).wf() {
                Some(Color { r, g, b, a })
            } else {
                None
            }),
    {
        if check_normalized(r) && check_normalized(g) && check_normalized(b) && check_normalized(a) {
            Some(Color { r, g, b, a })
        } else {
            None
        }
    }

    /// Whether two colors are the same bit for bit.
    pub fn is_identical(self, other: Color) -> (r: bool)
        ensures
            r == (self == other),
    {
        self.r.to_bits() == other.r.to_bits() && self.g.to_bits() == other.g.to_bits()
            && self.b.to_bits() == other.b.to_bits() && self.a.to_bits() == other.a.to_bits()
    }

    /// Alpha is one.
    #[verifier::when_used_as_spec(spec_is_opaque)]
    pub fn is_opaque(self) -> (r: bool)
        ensures
            r == self.spec_is_opaque(),
    {
        self.a.is_same(Scalar::one())
    }
}

/// A premultiplied RGBA pixel of four bytes.
#[derive(Clone, Copy, Debug, PartialEq, Eq, Structural)]
pub struct PremultipliedColorU8 {
    pub r: u8,
    pub g: u8,
    pub b: u8,
    pub a: u8,
}

impl PremultipliedColorU8 {
    /// Creates a pixel from its channels as they stand.
    pub fn from_rgba_unchecked(r: u8, g: u8, b: u8, a: u8) -> (c: PremultipliedColorU8)
        ensures
            c == (PremultipliedColorU8 { r, g, b, a }),
    {
        PremultipliedColorU8 { r, g, b, a }
    }

    /// The transparent pixel.
    pub fn transparent() -> (c: PremultipliedColorU8)
        ensures
            c == (PremultipliedColorU8 { r: 0, g: 0, b: 0, a: 0 }),
    {
        PremultipliedColorU8 { r: 0, g: 0, b: 0, a: 0 }
    }

    /// The red channel.
    pub fn red(self) -> (v: u8)
        ensures
            v == self.r,
    {
        self.r
    }

    /// The green channel.
    pub fn green(self) -> (v: u8)
        ensures
            v == self.g,
    {
        self.g
    }

    /// The blue channel.
    pub fn blue(self) -> (v: u8)
        ensures
            v == self.b,
    {
        self.b
    }

    /// The alpha channel.
    pub fn alpha(self) -> (v: u8)
        ensures
            v == self.a,
    {
        self.a
    }
}

/// The color space in which a pipeline blends.
#[derive(Clone, Copy, Debug, PartialEq, Eq, Structural)]
pub enum ColorSpace {
    /// Colors are used as they are.
    Linear,
    /// Gamma of 2, expanded by squaring.
    Gamma2,
    /// sRGB approximated by a gamma of 2.2.
    SimpleSRGB,
    /// The full sRGB transfer function.
    FullSRGBGamma,
}

impl ColorSpace {
    /// The stage that expands colors of this space, if it needs one.
    pub open spec fn spec_expand_stage(self) -> Option<Stage> {
        match self {
            ColorSpace::Linear => None,
            ColorSpace::Gamma2 => Some(Stage::GammaExpand2),
            ColorSpace::SimpleSRGB => Some(Stage::GammaExpand22),
            ColorSpace::FullSRGBGamma => Some(Stage::GammaExpandSrgb),
        }
    }

    /// The stage that expands colors of this space, if it needs one.
    #[verifier::when_used_as_spec(spec_expand_stage)]
    pub fn expand_stage(self) -> (r: Option<Stage>)
        ensures
            r == self.spec_expand_stage(),
    {
        match self {
            ColorSpace::Linear => None,
            ColorSpace::Gamma2 => Some(Stage::GammaExpand2),
            ColorSpace::SimpleSRGB => Some(Stage::GammaExpand22),
            ColorSpace::FullSRGBGamma => Some(Stage::GammaExpandSrgb),
        }
    }
}

} // verus!
