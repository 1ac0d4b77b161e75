//! What the bit patterns mean: the exact value of a finite number, and the
//! proofs that order and tolerances on the bits are order and tolerances
//! on the values.

use vstd::prelude::*;
use vstd::arithmetic::power2::{
    lemma2_to64,
    lemma_pow2_adds,
    lemma_pow2_pos,
    lemma_pow2_strictly_increases,
    lemma_pow2_unfold,
    pow2,
};
use crate::scalar::{
    Scalar,
    INFINITY_BITS,
    NEARLY_ONE_HIGH_BITS,
    NEARLY_ONE_LOW_BITS,
    NEARLY_ZERO_BITS,
    ONE_BITS,
};

verus! {

/// The absolute value of the finite number with the given magnitude bits,
/// in units of `2^-149`: the fraction alone for a subnormal number, and
/// else the fraction under its hidden bit, doubled for each step of the
/// exponent above one.
pub open spec fn scaled(magnitude: int) -> int {
    let exponent = magnitude / 0x80_0000;
    let fraction = magnitude % 0x80_0000;
    if exponent == 0 {
        fraction
    } else {
        (0x80_0000 + fraction) * pow2((exponent - 1) as nat)
    }
}

impl Scalar {
    /// The value of a finite number in units of `2^-149`, in which every
    /// finite number is whole.
    pub open spec fn value(self) -> int {
        if self.spec_is_sign_negative() {
            -scaled(self.magnitude())
        } else {
            scaled(self.magnitude())
        }
    }
}

/// Larger magnitude bits are a larger absolute value.
pub proof fn lemma_scaled_increases(low: int, high: int)
    requires
        0 <= low < high < INFINITY_BITS,
    ensures
        0 <= scaled(low) < scaled(high),
{
    let e1 = low / 0x80_0000;
    let f1 = low % 0x80_0000;
    let e2 = high / 0x80_0000;
    let f2 = high % 0x80_0000;
    lemma2_to64();
    if e1 == e2 {
        if e1 > 0 {
            let p = pow2((e1 - 1) as nat) as int;
            lemma_pow2_pos((e1 - 1) as nat);
            assert((0x80_0000 + f1) * p < (0x80_0000 + f2) * p) by (nonlinear_arith)
                requires
                    f1 < f2,
                    p > 0,
            ;
            assert(0 <= (0x80_0000 + f1) * p) by (nonlinear_arith)
                requires
                    0 <= f1,
                    p > 0,
            ;
        }
    } else {
        let top = pow2((e2 - 1) as nat) as int;
        let step = pow2(e1 as nat) as int;
        lemma_pow2_pos(e1 as nat);
        if e1 < e2 - 1 {
            lemma_pow2_strictly_increases(e1 as nat, (e2 - 1) as nat);
        }
        assert(step <= top);
        assert(0x80_0000 * step <= (0x80_0000 + f2) * top) by (nonlinear_arith)
            requires
                0 < step <= top,
                0 <= f2,
        ;
        if e1 > 0 {
            let p = pow2((e1 - 1) as nat) as int;
            lemma_pow2_pos((e1 - 1) as nat);
            lemma_pow2_unfold(e1 as nat);
            assert((0x80_0000 + f1) * p < 0x80_0000 * (2 * p)) by (nonlinear_arith)
                requires
                    0 <= f1 < 0x80_0000,
                    p > 0,
            ;
            assert(0 <= (0x80_0000 + f1) * p) by (nonlinear_arith)
                requires
                    0 <= f1,
                    p > 0,
            ;
        } else {
            assert(f1 < 0x80_0000 * step) by (nonlinear_arith)
                requires
                    f1 < 0x80_0000,
                    step >= 1,
            ;
        }
    }
}

/// Magnitude bits compare as the absolute values do.
pub proof fn lemma_scaled_compares(a: int, b: int)
    requires
        0 <= a < INFINITY_BITS,
        0 <= b < INFINITY_BITS,
    ensures
        a < b <==> scaled(a) < scaled(b),
        a == b <==> scaled(a) == scaled(b),
        0 <= scaled(a),
        a == 0 <==> scaled(a) == 0,
{
    if a < b {
        lemma_scaled_increases(a, b);
    } else if b < a {
        lemma_scaled_increases(b, a);
    }
    if 0 < a {
        lemma_scaled_increases(0, a);
    }
}

/// The order that the comparisons of this crate go by is the order of
/// the values: for finite numbers, ranks compare as values do.
pub proof fn lemma_rank_orders_values(a: Scalar, b: Scalar)
    requires
        a.spec_is_finite(),
        b.spec_is_finite(),
    ensures
        a.rank() < b.rank() <==> a.value() < b.value(),
        a.rank() == b.rank() <==> a.value() == b.value(),
        a.spec_lt(b) <==> a.value() < b.value(),
        a.spec_le(b) <==> a.value() <= b.value(),
        a.same(b) <==> a.value() == b.value(),
{
    lemma_scaled_compares(a.magnitude(), b.magnitude());
}

/// Negation negates the value, and the absolute value is the value
/// without its sign.
pub proof fn lemma_sign_of_value(x: Scalar)
    requires
        x.spec_is_finite(),
    ensures
        x.spec_neg().value() == -x.value(),
        x.spec_abs().value() == (if x.value() < 0 {
            -x.value()
        } else {
            x.value()
        }),
        x.spec_neg().spec_is_finite(),
        x.spec_abs().spec_is_finite(),
{
    lemma_scaled_compares(x.magnitude(), 0);
}

/// A finite number is within a finite tolerance of zero exactly if its
/// absolute value is no more than the tolerance.
pub proof fn lemma_nearly_zero_is_numeric(x: Scalar, tolerance: Scalar)
    requires
        x.spec_is_finite(),
        tolerance.spec_is_finite(),
    ensures
        x.spec_is_nearly_zero_within_tolerance(tolerance) <==> (if x.value() < 0 {
            -x.value()
        } else {
            x.value()
        }) <= tolerance.value(),
{
    lemma_sign_of_value(x);
    lemma_rank_orders_values(x.spec_abs(), tolerance);
}

/// The values of one and of the tolerance `2^-12`, in units of `2^-149`.
pub proof fn lemma_unit_values()
    ensures
        (Scalar { bits: ONE_BITS }).value() == pow2(149),
        (Scalar { bits: NEARLY_ZERO_BITS }).value() == pow2(137),
        (Scalar { bits: NEARLY_ONE_LOW_BITS }).value() == pow2(149) - pow2(137),
        (Scalar { bits: NEARLY_ONE_HIGH_BITS }).value() == pow2(149) + pow2(137),
{
    lemma2_to64();
    lemma_pow2_adds(23, 126);
    lemma_pow2_adds(23, 114);
    lemma_pow2_adds(24, 125);
    lemma_pow2_adds(12, 125);
    lemma_pow2_adds(11, 126);
    let p125 = pow2(125) as int;
    let p126 = pow2(126) as int;
    assert((0x80_0000 + 0x7F_F000) * p125 == 0x100_0000 * p125 - 0x1000 * p125)
        by (nonlinear_arith);
    assert((0x80_0000 + 0x800) * p126 == 0x80_0000 * p126 + 0x800 * p126) by (nonlinear_arith);
    assert(ONE_BITS as int / 0x80_0000 == 127 && ONE_BITS as int % 0x80_0000 == 0);
    assert(NEARLY_ZERO_BITS as int / 0x80_0000 == 115 && NEARLY_ZERO_BITS as int % 0x80_0000 == 0);
    assert(NEARLY_ONE_LOW_BITS as int / 0x80_0000 == 126 && NEARLY_ONE_LOW_BITS as int % 0x80_0000
        == 0x7F_F000);
    assert(NEARLY_ONE_HIGH_BITS as int / 0x80_0000 == 127 && NEARLY_ONE_HIGH_BITS as int
        % 0x80_0000 == 0x800);
}

/// A finite number is nearly one exactly if its distance from one, in
/// exact arithmetic, is no more than `2^-12`.
pub proof fn lemma_nearly_one_is_numeric(x: Scalar)
    requires
        x.spec_is_finite(),
    ensures
        x.spec_is_nearly_one() <==> pow2(149) - pow2(137) <= x.value() <= pow2(149) + pow2(137),
{
    lemma_unit_values();
    lemma_rank_orders_values(Scalar { bits: NEARLY_ONE_LOW_BITS }, x);
    lemma_rank_orders_values(x, Scalar { bits: NEARLY_ONE_HIGH_BITS });
    lemma_pow2_pos(137);
    lemma_pow2_strictly_increases(137, 149);
    lemma_scaled_compares(x.magnitude(), 0);
}

} // verus!
