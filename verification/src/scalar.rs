//! Single-precision numbers held by their bit patterns.
//!
//! Everything here is decided on the bits alone: sign, class, order and
//! equality. Nothing rounds, so every result is exact.

use vstd::prelude::*;
use vstd::std_specs::cmp::PartialEqSpecImpl;

verus! {

/// Bits of `0.0`.
pub const ZERO_BITS: u32 = 0x0000_0000;

/// Bits of `-0.0`.
pub const MINUS_ZERO_BITS: u32 = 0x8000_0000;

/// Bits of a NaN.
pub const NAN_BITS: u32 = 0x7FC0_0000;

/// Bits of `0.5`.
pub const HALF_BITS: u32 = 0x3F00_0000;

/// Bits of `1.0`.
pub const ONE_BITS: u32 = 0x3F80_0000;

/// Bits of `-1.0`.
pub const MINUS_ONE_BITS: u32 = 0xBF80_0000;

/// Bits of `360.0`.
pub const FULL_TURN_BITS: u32 = 0x43B4_0000;

/// Bits of `2^-12`, the default "nearly zero" tolerance.
pub const NEARLY_ZERO_BITS: u32 = 0x3980_0000;

/// Bits of `1 - 2^-12`, the smallest number that is nearly one.
pub const NEARLY_ONE_LOW_BITS: u32 = 0x3F7F_F000;

/// Bits of `1 + 2^-12`, the largest number that is nearly one.
pub const NEARLY_ONE_HIGH_BITS: u32 = 0x3F80_0800;

/// Bits of positive infinity. Larger magnitudes are NaN.
pub const INFINITY_BITS: u32 = 0x7F80_0000;

/// Bits of the largest finite number.
pub const MAX_BITS: u32 = 0x7F7F_FFFF;

/// The sign bit.
pub const SIGN_BIT: u32 = 0x8000_0000;

/// A single-precision number, held by its IEEE 754 binary32 bit pattern.
///
/// The sign is the top bit; the remaining 31 bits are the magnitude, whose
/// order as an integer is the order of the absolute values.
#[derive(Clone, Copy, Debug)]
pub struct Scalar {
    pub bits: u32,
}

impl Scalar {
    /// The low 31 bits: exponent and fraction.
    pub open spec fn magnitude(self) -> int {
        self.bits as int % 0x8000_0000
    }

    /// Whether the sign bit is set.
    pub open spec fn spec_is_sign_negative(self) -> bool {
        self.bits >= 0x8000_0000u32
    }

    /// Not a number: the exponent is all ones and the fraction is not zero.
    pub open spec fn spec_is_nan(self) -> bool {
        self.magnitude() > 0x7F80_0000
    }

    /// Neither infinite nor NaN.
    pub open spec fn spec_is_finite(self) -> bool {
        self.magnitude() < 0x7F80_0000
    }

    /// Positive or negative zero.
    pub open spec fn spec_is_zero(self) -> bool {
        self.magnitude() == 0
    }

    /// The place of a number in the numeric order: the magnitude, negated
    /// under a set sign bit. Both zeros have rank 0.
    pub open spec fn rank(self) -> int {
        if self.spec_is_sign_negative() {
            -self.magnitude()
        } else {
            self.magnitude()
        }
    }

    /// `self < other` as numbers; false when either is NaN.
    pub open spec fn spec_lt(self, other: Scalar) -> bool {
        !self.spec_is_nan() && !other.spec_is_nan() && self.rank() < other.rank()
    }

    /// `self <= other` as numbers; false when either is NaN.
    pub open spec fn spec_le(self, other: Scalar) -> bool {
        !self.spec_is_nan() && !other.spec_is_nan() && self.rank() <= other.rank()
    }

    /// `self > other` as numbers; false when either is NaN.
    pub open spec fn spec_gt(self, other: Scalar) -> bool {
        other.spec_lt(self)
    }

    /// `self >= other` as numbers; false when either is NaN.
    pub open spec fn spec_ge(self, other: Scalar) -> bool {
        other.spec_le(self)
    }

    /// Equal as numbers: the zeros are equal, and NaN equals nothing.
    pub open spec fn same(self, other: Scalar) -> bool {
        !self.spec_is_nan() && !other.spec_is_nan() && self.rank() == other.rank()
    }

    /// The same bits, or NaN both: what one computation gives twice.
    pub open spec fn alike(self, other: Scalar) -> bool {
        self == other || (self.spec_is_nan() && other.spec_is_nan())
    }

    /// The number with the sign bit flipped.
    pub open spec fn spec_neg(self) -> Scalar {
        if self.spec_is_sign_negative() {
            Scalar { bits: (self.bits - 0x8000_0000) as u32 }
        } else {
            Scalar { bits: (self.bits + 0x8000_0000) as u32 }
        }
    }

    /// The number with the sign bit cleared.
    pub open spec fn spec_abs(self) -> Scalar {
        Scalar { bits: self.magnitude() as u32 }
    }

    /// The larger of two numbers. A NaN gives way to the other argument;
    /// of two equal numbers the first is returned.
    pub open spec fn spec_max(self, other: Scalar) -> Scalar {
        if self.spec_is_nan() {
            other
        } else if other.spec_is_nan() {
            self
        } else if self.rank() < other.rank() {
            other
        } else {
            self
        }
    }

    /// The smaller of two numbers. A NaN gives way to the other argument;
    /// of two equal numbers the first is returned.
    pub open spec fn spec_min(self, other: Scalar) -> Scalar {
        if self.spec_is_nan() {
            other
        } else if other.spec_is_nan() {
            self
        } else if other.rank() < self.rank() {
            other
        } else {
            self
        }
    }

    /// `|self| <= tolerance`.
    pub open spec fn spec_is_nearly_zero_within_tolerance(self, tolerance: Scalar) -> bool {
        self.spec_abs().spec_le(tolerance)
    }

    /// `|self| <= 2^-12`.
    pub open spec fn spec_is_nearly_zero(self) -> bool {
        self.spec_is_nearly_zero_within_tolerance(Scalar { bits: NEARLY_ZERO_BITS })
    }

    /// `|1 - self| <= 2^-12`, that is `1 - 2^-12 <= self <= 1 + 2^-12`.
    pub open spec fn spec_is_nearly_one(self) -> bool {
        NEARLY_ONE_LOW_BITS <= self.bits <= NEARLY_ONE_HIGH_BITS
    }

    /// A finite number clamped to `[0, 1]`; anything else becomes zero.
    pub open spec fn spec_clamp01(self) -> Scalar {
        if !self.spec_is_finite() {
            Scalar { bits: ZERO_BITS }
        } else if self.rank() <= 0 {
            Scalar { bits: ZERO_BITS }
        } else if self.rank() >= ONE_BITS as int {
            Scalar { bits: ONE_BITS }
        } else {
            self
        }
    }

    /// Wraps a bit pattern.
    pub fn from_bits(bits: u32) -> (r: Scalar)
        ensures
            r.bits == bits,
    {
        Scalar { bits }
    }

    /// The bit pattern.
    pub fn to_bits(self) -> (r: u32)
        ensures
            r == self.bits,
    {
        self.bits
    }

    /// `0.0`.
    pub fn zero() -> (r: Scalar)
        ensures
            r.bits == ZERO_BITS,
    {
        Scalar { bits: ZERO_BITS }
    }

    /// `0.5`.
    pub fn half() -> (r: Scalar)
        ensures
            r.bits == HALF_BITS,
    {
        Scalar { bits: HALF_BITS }
    }

    /// `1.0`.
    pub fn one() -> (r: Scalar)
        ensures
            r.bits == ONE_BITS,
    {
        Scalar { bits: ONE_BITS }
    }

    /// `-1.0`.
    pub fn minus_one() -> (r: Scalar)
        ensures
            r.bits == MINUS_ONE_BITS,
    {
        Scalar { bits: MINUS_ONE_BITS }
    }

    /// The magnitude as a machine integer.
    fn magnitude_bits(self) -> (r: u32)
        ensures
            r as int == self.magnitude(),
            r < 0x8000_0000u32,
    {
        let b = self.bits;
        assert(b & 0x7FFF_FFFFu32 == b % 0x8000_0000u32) by (bit_vector);
        b & 0x7FFF_FFFF
    }

    /// Whether the sign bit is set.
    #[verifier::when_used_as_spec(spec_is_sign_negative)]
    pub fn is_sign_negative(self) -> (r: bool)
        ensures
            r == self.spec_is_sign_negative(),
    {
        self.bits >= SIGN_BIT
    }

    /// Not a number: the exponent is all ones and the fraction is not zero.
    #[verifier::when_used_as_spec(spec_is_nan)]
    pub fn is_nan(self) -> (r: bool)
        ensures
            r == self.spec_is_nan(),
    {
        self.magnitude_bits() > INFINITY_BITS
    }

    /// Neither infinite nor NaN.
    #[verifier::when_used_as_spec(spec_is_finite)]
    pub fn is_finite(self) -> (r: bool)
        ensures
            r == self.spec_is_finite(),
    {
        self.magnitude_bits() < INFINITY_BITS
    }

    /// Positive or negative zero.
    #[verifier::when_used_as_spec(spec_is_zero)]
    pub fn is_zero(self) -> (r: bool)
        ensures
            r == self.spec_is_zero(),
    {
        self.magnitude_bits() == 0
    }

    /// The rank as a machine integer.
    fn rank_bits(self) -> (r: i64)
        ensures
            r as int == self.rank(),
    {
        let m: i64 = self.magnitude_bits() as i64;
        if self.bits >= SIGN_BIT {
            -m
        } else {
            m
        }
    }

    /// `self < other` as numbers; false when either is NaN.
    #[verifier::when_used_as_spec(spec_lt)]
    pub fn lt(self, other: Scalar) -> (r: bool)
        ensures
            r == self.spec_lt(other),
    {
        !self.is_nan() && !other.is_nan() && self.rank_bits() < other.rank_bits()
    }

    /// `self <= other` as numbers; false when either is NaN.
    #[verifier::when_used_as_spec(spec_le)]
    pub fn le(self, other: Scalar) -> (r: bool)
        ensures
            r == self.spec_le(other),
    {
        !self.is_nan() && !other.is_nan() && self.rank_bits() <= other.rank_bits()
    }

    /// `self > other` as numbers; false when either is NaN.
    #[verifier::when_used_as_spec(spec_gt)]
    pub fn gt(self, other: Scalar) -> (r: bool)
        ensures
            r == self.spec_gt(other),
    {
        other.lt(self)
    }

    /// `self >= other` as numbers; false when either is NaN.
    #[verifier::when_used_as_spec(spec_ge)]
    pub fn ge(self, other: Scalar) -> (r: bool)
        ensures
            r == self.spec_ge(other),
    {
        other.le(self)
    }

    /// Whether two numbers have the same bits or are NaN both.
    pub fn is_alike(self, other: Scalar) -> (r: bool)
        ensures
            r == self.alike(other),
    {
        self.bits == other.bits || (self.is_nan() && other.is_nan())
    }

    /// Numeric equality, as `==` on the numbers themselves.
    pub fn is_same(self, other: Scalar) -> (r: bool)
        ensures
            r == self.same(other),
    {
        !self.is_nan() && !other.is_nan() && self.rank_bits() == other.rank_bits()
    }

    /// The number with the sign bit flipped.
    #[verifier::when_used_as_spec(spec_neg)]
    pub fn neg(self) -> (r: Scalar)
        ensures
            r == self.spec_neg(),
    {
        if self.bits >= SIGN_BIT {
            Scalar { bits: self.bits - SIGN_BIT }
        } else {
            Scalar { bits: self.bits + SIGN_BIT }
        }
    }

    /// The number with the sign bit cleared.
    #[verifier::when_used_as_spec(spec_abs)]
    pub fn abs(self) -> (r: Scalar)
        ensures
            r == self.spec_abs(),
    {
        Scalar { bits: self.magnitude_bits() }
    }

    /// The larger of two numbers. A NaN gives way to the other argument;
    /// of two equal numbers the first is returned.
    #[verifier::when_used_as_spec(spec_max)]
    pub fn max(self, other: Scalar) -> (r: Scalar)
        ensures
            r == self.spec_max(other),
    {
        if self.is_nan() {
            other
        } else if other.is_nan() {
            self
        } else if self.rank_bits() < other.rank_bits() {
            other
        } else {
            self
        }
    }

    /// The smaller of two numbers. A NaN gives way to the other argument;
    /// of two equal numbers the first is returned.
    #[verifier::when_used_as_spec(spec_min)]
    pub fn min(self, other: Scalar) -> (r: Scalar)
        ensures
            r == self.spec_min(other),
    {
        if self.is_nan() {
            other
        } else if other.is_nan() {
            self
        } else if other.rank_bits() < self.rank_bits() {
            other
        } else {
            self
        }
    }

    /// `|self| <= tolerance`.
    #[verifier::when_used_as_spec(spec_is_nearly_zero_within_tolerance)]
    pub fn is_nearly_zero_within_tolerance(self, tolerance: Scalar) -> (r: bool)
        ensures
            r == self.spec_is_nearly_zero_within_tolerance(tolerance),
    {
        self.abs().le(tolerance)
    }

    /// `|self| <= 2^-12`.
    #[verifier::when_used_as_spec(spec_is_nearly_zero)]
    pub fn is_nearly_zero(self) -> (r: bool)
        ensures
            r == self.spec_is_nearly_zero(),
    {
        self.is_nearly_zero_within_tolerance(Scalar { bits: NEARLY_ZERO_BITS })
    }

    /// Whether the number lies within `2^-12` of one.
    ///
    /// A difference of two numbers that lie within a factor of two of each
    /// other is exact, so the rounded `1 - self` is within the tolerance
    /// exactly on this range.
    #[verifier::when_used_as_spec(spec_is_nearly_one)]
    pub fn is_nearly_one(self) -> (r: bool)
        ensures
            r == self.spec_is_nearly_one(),
    {
        NEARLY_ONE_LOW_BITS <= self.bits && self.bits <= NEARLY_ONE_HIGH_BITS
    }

    /// A finite number clamped to `[0, 1]`; anything else becomes zero.
    #[verifier::when_used_as_spec(spec_clamp01)]
    pub fn clamp01(self) -> (r: Scalar)
        ensures
            r == self.spec_clamp01(),
    {
        if !self.is_finite() {
            Scalar { bits: ZERO_BITS }
        } else if self.rank_bits() <= 0 {
            Scalar { bits: ZERO_BITS }
        } else if self.rank_bits() >= ONE_BITS as i64 {
            Scalar { bits: ONE_BITS }
        } else {
            self
        }
    }
}

/// Negation changes the sign and nothing else.
pub proof fn lemma_neg_keeps_magnitude(x: Scalar)
    ensures
        x.spec_neg().magnitude() == x.magnitude(),
        x.spec_neg().spec_abs() == x.spec_abs(),
        x.spec_neg().spec_is_sign_negative() == !x.spec_is_sign_negative(),
{
}

impl PartialEq for Scalar {
    /// `==` is numeric equality: the two zeros are equal and NaN equals
    /// nothing, itself included.
    fn eq(&self, other: &Scalar) -> (r: bool) {
        self.is_same(*other)
    }
}

impl PartialEqSpecImpl for Scalar {
    open spec fn obeys_eq_spec() -> bool {
        true
    }

    open spec fn eq_spec(&self, other: &Scalar) -> bool {
        self.same(*other)
    }
}

} // verus!
