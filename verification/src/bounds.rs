//! Bounding boxes of points.

use vstd::prelude::*;
use vstd::arithmetic::power2::{
    lemma2_to64,
    lemma_pow2_adds,
    lemma_pow2_pos,
    lemma_pow2_strictly_increases,
    lemma_pow2_unfold,
    pow2,
};
use crate::halving::{halved, lemma_halved_decreases};
use crate::point::Point;
use crate::scalar::{Scalar, INFINITY_BITS, MAX_BITS};
use crate::value::{lemma_scaled_compares, lemma_scaled_increases, scaled};

verus! {

/// An absolute value in units of `2^103`, rounded down, given by its
/// magnitude bits. In these units the largest finite number is
/// `2^25 - 2`, and every number from `2^126` on is whole.
pub open spec fn coarse(magnitude: int) -> int {
    let exponent = magnitude / 0x80_0000;
    let significand = 0x80_0000 + magnitude % 0x80_0000;
    if exponent == 254 {
        2 * significand
    } else if exponent >= 229 {
        halved(significand, (253 - exponent) as nat)
    } else {
        0
    }
}

/// Magnitude bits of `2^74`: half of what separates the largest finite
/// number from the next smaller one in double precision.
pub const ABSORBED_BITS: u32 = 0x6480_0000;

/// [`span_fits`] as it is decided on the bits.
///
/// On one side of zero only the largest finite number is too far from a
/// number, and only from one of `2^74` or less. Across zero the distance
/// is the sum of the absolute values; one of them is whole in units of
/// `2^103` wherever the sum comes near the limit, so the units settle it.
pub open spec fn span_fits_on_bits(low: Scalar, high: Scalar) -> bool {
    if low.rank() > 0 {
        !(high.magnitude() == MAX_BITS as int && low.magnitude() <= ABSORBED_BITS as int)
    } else if high.rank() < 0 {
        !(low.magnitude() == MAX_BITS as int && high.magnitude() <= ABSORBED_BITS as int)
    } else {
        coarse(low.magnitude()) + coarse(high.magnitude()) < 0x1FF_FFFE
    }
}

/// Whether the distance from `low` up to `high` is less than the largest
/// finite number, so that a width or a height cannot overflow.
///
/// The distance is taken in double precision, where the largest finite
/// number absorbs what is `2^74` or less away from it. So a span fits
/// exactly if the exact distance is less than the largest finite number
/// less `2^74`.
pub open spec fn span_fits(low: Scalar, high: Scalar) -> bool {
    high.value() - low.value() < scaled(MAX_BITS as int) - scaled(ABSORBED_BITS as int)
}

/// Halving so many times is dividing by that power of two, rounded down.
pub proof fn lemma_halved_brackets(number: int, times: nat)
    requires
        0 <= number,
    ensures
        0 <= halved(number, times),
        halved(number, times) * pow2(times) <= number,
        number < (halved(number, times) + 1) * pow2(times),
    decreases times,
{
    lemma2_to64();
    if times > 0 {
        lemma_halved_brackets(number, (times - 1) as nat);
        lemma_pow2_unfold(times);
        lemma_pow2_pos((times - 1) as nat);
        let h = halved(number, (times - 1) as nat);
        let q = h / 2;
        let p = pow2((times - 1) as nat) as int;
        assert(halved(number, times) == q);
        assert(q * (2 * p) <= h * p) by (nonlinear_arith)
            requires
                2 * q <= h,
                p > 0,
        ;
        assert((h + 1) * p <= (q + 1) * (2 * p)) by (nonlinear_arith)
            requires
                h + 1 <= 2 * q + 2,
                p > 0,
        ;
    }
}

/// What the units of `2^103` say of a magnitude. In units of `2^-149` a
/// unit is `2^252`: the value lies from its count of units up to less
/// than one unit more, short of it by `2^228` at least, and from `2^126`
/// on it is whole.
pub proof fn lemma_coarse_brackets(magnitude: int)
    requires
        0 <= magnitude < INFINITY_BITS,
    ensures
        0 <= coarse(magnitude),
        coarse(magnitude) * pow2(252) <= scaled(magnitude),
        scaled(magnitude) <= coarse(magnitude) * pow2(252) + pow2(252) - pow2(228),
        magnitude / 0x80_0000 >= 253 ==> scaled(magnitude) == coarse(magnitude) * pow2(252),
        magnitude / 0x80_0000 < 253 ==> coarse(magnitude) < 0x80_0000,
{
    let exponent = magnitude / 0x80_0000;
    let significand = 0x80_0000 + magnitude % 0x80_0000;
    let unit = pow2(252) as int;
    let gap = pow2(228) as int;
    lemma2_to64();
    lemma_pow2_pos(228);
    lemma_pow2_adds(24, 228);
    assert(unit == 0x100_0000 * gap);
    if exponent == 254 {
        lemma_pow2_unfold(253);
        assert(significand * (2 * unit) == (2 * significand) * unit) by (nonlinear_arith);
    } else if exponent == 253 {
        assert(halved(significand, 0) == significand);
    } else if exponent >= 229 {
        let k = (253 - exponent) as nat;
        let c = halved(significand, k);
        let a = pow2(k) as int;
        let b = pow2((252 - k) as nat) as int;
        lemma_halved_brackets(significand, k);
        lemma_halved_decreases(significand, 1, k);
        assert(halved(significand, 1) == halved(significand, 0) / 2);
        lemma_pow2_adds(k, (252 - k) as nat);
        lemma_pow2_pos(k);
        lemma_pow2_pos((252 - k) as nat);
        if 252 - k > 228 {
            lemma_pow2_strictly_increases(228, (252 - k) as nat);
        }
        assert(a * b == unit);
        assert(c * (a * b) <= significand * b) by (nonlinear_arith)
            requires
                c * a <= significand,
                b > 0,
        ;
        assert(significand * b <= c * (a * b) + a * b - b) by (nonlinear_arith)
            requires
                significand + 1 <= (c + 1) * a,
                b > 0,
        ;
    } else {
        lemma_scaled_increases(magnitude, 0x7280_0000);
        assert(0x7280_0000int / 0x80_0000 == 229 && 0x7280_0000int % 0x80_0000 == 0);
        assert(scaled(0x7280_0000) == 0x80_0000 * gap);
        assert(0x80_0000 * gap <= 0x100_0000 * gap - gap) by (nonlinear_arith)
            requires
                gap > 0,
        ;
    }
}

/// The values of the two limits, in units of `2^-149`: the largest finite
/// number is `2^25 - 2` units of `2^252`, the one below it is `2^253`
/// less, and `2^74` is `2^223`.
pub proof fn lemma_limit_values()
    ensures
        scaled(MAX_BITS as int) == 0x1FF_FFFE * pow2(252),
        scaled(MAX_BITS as int - 1) == scaled(MAX_BITS as int) - pow2(253),
        scaled(ABSORBED_BITS as int) == pow2(223),
        pow2(223) < pow2(228) < pow2(252) < pow2(253),
        pow2(253) == 2 * pow2(252),
{
    lemma2_to64();
    lemma_pow2_unfold(253);
    lemma_pow2_adds(23, 200);
    lemma_pow2_strictly_increases(223, 228);
    lemma_pow2_strictly_increases(228, 252);
    let unit = pow2(252) as int;
    assert(MAX_BITS as int / 0x80_0000 == 254 && MAX_BITS as int % 0x80_0000 == 0x7F_FFFF);
    assert((MAX_BITS as int - 1) / 0x80_0000 == 254 && (MAX_BITS as int - 1) % 0x80_0000
        == 0x7F_FFFE);
    assert(ABSORBED_BITS as int / 0x80_0000 == 201 && ABSORBED_BITS as int % 0x80_0000 == 0);
    assert(0xFF_FFFF * (2 * unit) == 0x1FF_FFFE * unit) by (nonlinear_arith);
    assert(0xFF_FFFE * (2 * unit) == 0xFF_FFFF * (2 * unit) - 2 * unit) by (nonlinear_arith);
}

/// On one side of zero, a distance is below the limit unless it is the
/// distance of the largest finite number from a number of `2^74` or less.
proof fn lemma_span_on_one_side(near: int, far: int)
    requires
        0 < near <= far < INFINITY_BITS,
    ensures
        scaled(far) - scaled(near) < scaled(MAX_BITS as int) - scaled(ABSORBED_BITS as int) <==> !(
        far == MAX_BITS as int && near <= ABSORBED_BITS as int),
{
    lemma_limit_values();
    lemma_scaled_compares(near, ABSORBED_BITS as int);
    lemma_scaled_compares(near, 0);
    if far < MAX_BITS as int {
        lemma_scaled_compares(far, MAX_BITS as int - 1);
    }
}

/// Across zero, a distance is below the limit exactly if the units of
/// `2^103` of the two numbers add up to less than the largest finite
/// number's.
proof fn lemma_span_across_zero(below: int, above: int)
    requires
        0 <= below < INFINITY_BITS,
        0 <= above < INFINITY_BITS,
    ensures
        scaled(above) + scaled(below) < scaled(MAX_BITS as int) - scaled(ABSORBED_BITS as int)
            <==> coarse(below) + coarse(above) < 0x1FF_FFFE,
{
    lemma_limit_values();
    lemma_coarse_brackets(below);
    lemma_coarse_brackets(above);
    let unit = pow2(252) as int;
    let gap = pow2(228) as int;
    let count = coarse(below) + coarse(above);
    let sum = scaled(above) + scaled(below);
    assert(count * unit == coarse(below) * unit + coarse(above) * unit) by (nonlinear_arith)
        requires
            count == coarse(below) + coarse(above),
    ;
    if below / 0x80_0000 < 253 && above / 0x80_0000 < 253 {
        assert(count <= 0xFF_FFFE);
        assert(count * unit + 2 * unit <= 0x100_0000 * unit) by (nonlinear_arith)
            requires
                count <= 0xFF_FFFE,
                unit > 0,
        ;
        assert(0x100_0000 * unit + unit <= 0x1FF_FFFE * unit) by (nonlinear_arith)
            requires
                unit > 0,
        ;
    } else {
        assert(sum <= count * unit + unit - gap);
        if count <= 0x1FF_FFFD {
            assert(count * unit + unit <= 0x1FF_FFFE * unit) by (nonlinear_arith)
                requires
                    count <= 0x1FF_FFFD,
                    unit > 0,
            ;
        } else {
            assert(0x1FF_FFFE * unit <= count * unit) by (nonlinear_arith)
                requires
                    count >= 0x1FF_FFFE,
                    unit > 0,
            ;
        }
    }
}

/// The test on the bits is the test on the numbers, for finite edges in
/// order.
pub proof fn lemma_span_fits_on_bits(low: Scalar, high: Scalar)
    requires
        low.spec_is_finite(),
        high.spec_is_finite(),
        low.spec_le(high),
    ensures
        span_fits_on_bits(low, high) == span_fits(low, high),
{
    lemma_scaled_compares(low.magnitude(), 0);
    lemma_scaled_compares(high.magnitude(), 0);
    if low.rank() > 0 {
        lemma_span_on_one_side(low.magnitude(), high.magnitude());
    } else if high.rank() < 0 {
        lemma_span_on_one_side(high.magnitude(), low.magnitude());
    } else {
        lemma_span_across_zero(low.magnitude(), high.magnitude());
    }
}

/// Runtime form of [`coarse`].
fn coarse_units(x: Scalar) -> (r: u32)
    requires
        x.spec_is_finite(),
    ensures
        r == coarse(x.magnitude()),
        r <= 0x1FF_FFFE,
{
    let m: u32 = x.abs().to_bits();
    let exponent: u32 = m / 0x80_0000;
    let significand: u32 = 0x80_0000 + m % 0x80_0000;
    if exponent == 254 {
        2 * significand
    } else if exponent >= 229 {
        let mut v: u32 = significand;
        let mut done: u32 = 0;
        while done < 253 - exponent
            invariant
                229 <= exponent <= 253,
                done <= 253 - exponent,
                v == halved(significand as int, done as nat),
                v <= significand,
            decreases 253 - exponent - done,
        {
            v = v / 2;
            done += 1;
        }
        v
    } else {
        0
    }
}

/// A rectangle by its edges: finite, not inside out, and neither wider
/// nor higher than the largest finite number. It may be empty along
/// either axis.
#[derive(Clone, Copy, Debug, PartialEq)]
pub struct Bounds {
    left: Scalar,
    top: Scalar,
    right: Scalar,
    bottom: Scalar,
}

/// The four edges of a [`Bounds`].
pub struct BoundsView {
    pub left: Scalar,
    pub top: Scalar,
    pub right: Scalar,
    pub bottom: Scalar,
}

impl BoundsView {
    /// The edges make a rectangle.
    pub open spec fn wf(self) -> bool {
        &&& self.left.spec_is_finite() && self.top.spec_is_finite()
        &&& self.right.spec_is_finite() && self.bottom.spec_is_finite()
        &&& self.left.spec_le(self.right)
        &&& self.top.spec_le(self.bottom)
        &&& span_fits(self.left, self.right)
        &&& span_fits(self.top, self.bottom)
    }
}

impl View for Bounds {
    type V = BoundsView;

    closed spec fn view(&self) -> BoundsView {
        BoundsView { left: self.left, top: self.top, right: self.right, bottom: self.bottom }
    }
}

/// The smallest x among the first `count` points; of equal ones the
/// earliest.
pub open spec fn lowest_x(points: Seq<Point>, count: nat) -> Scalar
    decreases count,
{
    if count <= 1 {
        points[0].x
    } else {
        lowest_x(points, (count - 1) as nat).spec_min(points[count - 1].x)
    }
}

/// The smallest y among the first `count` points.
pub open spec fn lowest_y(points: Seq<Point>, count: nat) -> Scalar
    decreases count,
{
    if count <= 1 {
        points[0].y
    } else {
        lowest_y(points, (count - 1) as nat).spec_min(points[count - 1].y)
    }
}

/// The largest x among the first `count` points.
pub open spec fn highest_x(points: Seq<Point>, count: nat) -> Scalar
    decreases count,
{
    if count <= 1 {
        points[0].x
    } else {
        highest_x(points, (count - 1) as nat).spec_max(points[count - 1].x)
    }
}

/// The largest y among the first `count` points.
pub open spec fn highest_y(points: Seq<Point>, count: nat) -> Scalar
    decreases count,
{
    if count <= 1 {
        points[0].y
    } else {
        highest_y(points, (count - 1) as nat).spec_max(points[count - 1].y)
    }
}

/// Every point has finite coordinates.
pub open spec fn all_finite(points: Seq<Point>) -> bool {
    forall|i: int| 0 <= i < points.len() ==> (#[trigger] points[i]).spec_is_finite()
}

impl Bounds {
    /// The bounds are a rectangle. All bounds are.
    #[verifier::type_invariant]
    pub open spec fn wf(self) -> bool {
        self@.wf()
    }

    /// The bounds of the given edges, where they make a rectangle.
    pub open spec fn spec_from_ltrb(left: Scalar, top: Scalar, right: Scalar, bottom: Scalar)
        -> Option<BoundsView> {
        let edges = BoundsView { left, top, right, bottom };
        if edges.wf() {
            Some(edges)
        } else {
            None
        }
    }

    /// The smallest rectangle about the given points: `None` for no
    /// points, for a coordinate that is not finite, and for a spread too
    /// wide or too high to be a rectangle.
    pub open spec fn spec_from_points(points: Seq<Point>) -> Option<BoundsView> {
        if points.len() == 0 || !all_finite(points) {
            None
        } else {
            Self::spec_from_ltrb(
                lowest_x(points, points.len()),
                lowest_y(points, points.len()),
                highest_x(points, points.len()),
                highest_y(points, points.len()),
            )
        }
    }

    /// Creates bounds from their edges; `None` unless the edges are
    /// finite, not inside out, and no farther apart than a number can say.
    pub fn from_ltrb(left: Scalar, top: Scalar, right: Scalar, bottom: Scalar) -> (r: Option<
        Bounds,
    >)
        ensures
            r is Some == Self::spec_from_ltrb(left, top, right, bottom) is Some,
            r matches Some(b) ==> Some(b@) == Self::spec_from_ltrb(left, top, right, bottom),
    {
        if !left.is_finite() || !top.is_finite() || !right.is_finite() || !bottom.is_finite() {
            return None;
        }
        if !left.le(right) || !top.le(bottom) {
            return None;
        }
        if !check_span(left, right) || !check_span(top, bottom) {
            return None;
        }
        Some(Bounds { left, top, right, bottom })
    }

    /// Computes the bounds of a list of points.
    pub fn from_points(points: &Vec<Point>) -> (r: Option<Bounds>)
        ensures
            r is Some == Self::spec_from_points(points@) is Some,
            r matches Some(b) ==> Some(b@) == Self::spec_from_points(points@),
    {
        if points.len() == 0 {
            return None;
        }
        if !points[0].is_finite() {
            return None;
        }
        let mut left = points[0].x;
        let mut top = points[0].y;
        let mut right = points[0].x;
        let mut bottom = points[0].y;
        let mut i: usize = 1;
        while i < points.len()
            invariant
                1 <= i <= points.len(),
                all_finite(points@.subrange(0, i as int)),
                left == lowest_x(points@, i as nat),
                top == lowest_y(points@, i as nat),
                right == highest_x(points@, i as nat),
                bottom == highest_y(points@, i as nat),
            decreases points.len() - i,
        {
            let p = points[i];
            if !p.is_finite() {
                return None;
            }
            left = left.min(p.x);
            top = top.min(p.y);
            right = right.max(p.x);
            bottom = bottom.max(p.y);
            proof {
                let before = points@.subrange(0, i as int);
                let after = points@.subrange(0, i as int + 1);
                assert forall|k: int| 0 <= k < after.len() implies (#[trigger] after[k])
                    .spec_is_finite() by {
                    if k < i {
                        assert(before[k] == after[k]);
                    }
                }
            }
            i += 1;
        }
        assert(points@.subrange(0, i as int) =~= points@);
        Self::from_ltrb(left, top, right, bottom)
    }

    /// The left edge.
    pub fn left(&self) -> (r: Scalar)
        ensures
            r == self@.left,
            self@.wf(),
    {
        proof {
            use_type_invariant(self);
        }
        self.left
    }

    /// The top edge.
    pub fn top(&self) -> (r: Scalar)
        ensures
            r == self@.top,
            self@.wf(),
    {
        proof {
            use_type_invariant(self);
        }
        self.top
    }

    /// The right edge.
    pub fn right(&self) -> (r: Scalar)
        ensures
            r == self@.right,
            self@.wf(),
    {
        proof {
            use_type_invariant(self);
        }
        self.right
    }

    /// The bottom edge.
    pub fn bottom(&self) -> (r: Scalar)
        ensures
            r == self@.bottom,
            self@.wf(),
    {
        proof {
            use_type_invariant(self);
        }
        self.bottom
    }
}

/// Computes [`span_fits`] for finite edges in order.
fn check_span(low: Scalar, high: Scalar) -> (r: bool)
    requires
        low.spec_is_finite(),
        high.spec_is_finite(),
        low.spec_le(high),
    ensures
        r == span_fits(low, high),
{
    proof {
        lemma_span_fits_on_bits(low, high);
    }
    if low.gt(Scalar::zero()) {
        !(high.abs().to_bits() == MAX_BITS && low.abs().to_bits() <= ABSORBED_BITS)
    } else if high.lt(Scalar::zero()) {
        !(low.abs().to_bits() == MAX_BITS && high.abs().to_bits() <= ABSORBED_BITS)
    } else {
        coarse_units(low) + coarse_units(high) < 0x1FF_FFFE
    }
}

} // verus!
