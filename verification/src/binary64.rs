//! IEEE-754 binary64 values by their bit patterns.
//!
//! The numerical kernels of the code compute in hardware arithmetic. What they
//! decide from a computed value (is it finite, is it positive, which of two is
//! smaller, how many whole ticks does it hold) is a function of the sixty-four
//! bits alone. [`Binary64`] carries those bits, and its methods are those
//! decisions. The mathematical model of a value is its [`Binary64::rank`]: an
//! integer that orders the values as the numbers they stand for.

use vstd::prelude::*;
use vstd::arithmetic::power2::pow2;
use vstd::arithmetic::power2::{
    lemma2_to64, lemma2_to64_rest, lemma_pow2_pos, lemma_pow2_strictly_increases,
};
use vstd::bits::{lemma_u64_shl_is_mul, lemma_u64_shr_is_div};

verus! {

/// The sign bit of a binary64 pattern.
pub const SIGN_BIT: u64 = 0x8000_0000_0000_0000;

/// The pattern of positive infinity; every larger magnitude is a NaN.
pub const INFINITY_BITS: u64 = 0x7ff0_0000_0000_0000;

/// The weight of the lowest exponent bit, and the implicit leading significand bit.
pub const SIGNIFICAND_UNIT: u64 = 0x0010_0000_0000_0000;

/// The pattern of one half.
pub const HALF_BITS: u64 = 0x3fe0_0000_0000_0000;

/// The pattern of one.
pub const ONE_BITS: u64 = 0x3ff0_0000_0000_0000;

/// The pattern of two.
pub const TWO_BITS: u64 = 0x4000_0000_0000_0000;

/// The pattern of a quiet NaN.
pub const NAN_BITS: u64 = 0x7ff8_0000_0000_0000;

/// A binary64 value, held as its bit pattern.
///
/// The derived equality compares patterns; [`Binary64::equals`] compares values.
#[derive(Clone, Copy, Debug, PartialEq, Eq, Structural)]
pub struct Binary64 {
    pub bits: u64,
}

impl Binary64 {
    /// Whether the sign bit is set.
    pub open spec fn negative(self) -> bool {
        self.bits >= SIGN_BIT
    }

    /// The pattern without its sign bit. Magnitudes are ordered as absolute values.
    pub open spec fn magnitude(self) -> int {
        if self.negative() {
            self.bits - SIGN_BIT
        } else {
            self.bits as int
        }
    }

    /// Whether the pattern is a NaN.
    pub open spec fn nan(self) -> bool {
        self.magnitude() > INFINITY_BITS
    }

    /// Whether the value is neither infinite nor a NaN.
    pub open spec fn finite(self) -> bool {
        self.magnitude() < INFINITY_BITS
    }

    /// The signed magnitude. On values that are not NaN it orders as the numbers do,
    /// and both zeros have rank zero.
    pub open spec fn rank(self) -> int {
        if self.negative() {
            -self.magnitude()
        } else {
            self.magnitude()
        }
    }

    /// The numeric comparison `self < other`, false where either is a NaN.
    pub open spec fn lt(self, other: Binary64) -> bool {
        !self.nan() && !other.nan() && self.rank() < other.rank()
    }

    /// The numeric comparison `self <= other`, false where either is a NaN.
    pub open spec fn le(self, other: Binary64) -> bool {
        !self.nan() && !other.nan() && self.rank() <= other.rank()
    }

    /// The numeric comparison `self == other`, false where either is a NaN.
    pub open spec fn same(self, other: Binary64) -> bool {
        !self.nan() && !other.nan() && self.rank() == other.rank()
    }

    /// Finite and greater than zero.
    pub open spec fn positive(self) -> bool {
        self.finite() && self.rank() > 0
    }

    /// Finite and not below zero.
    pub open spec fn nonnegative(self) -> bool {
        self.finite() && self.rank() >= 0
    }

    /// The position in the total order of all patterns: negative NaNs first, then the
    /// numbers with negative zero before positive zero, then the positive NaNs.
    pub open spec fn total_rank(self) -> int {
        if self.negative() {
            -1 - self.magnitude()
        } else {
            self.magnitude()
        }
    }

    /// The biased exponent.
    pub open spec fn exponent(self) -> int {
        self.magnitude() / (SIGNIFICAND_UNIT as int)
    }

    /// The significand of a normal value, leading bit included.
    pub open spec fn significand(self) -> int {
        SIGNIFICAND_UNIT + self.magnitude() % (SIGNIFICAND_UNIT as int)
    }

    /// The integer part of the absolute value of a finite value: the significand times
    /// two to the power `exponent - 1075`, rounded down.
    pub open spec fn whole(self) -> int {
        if self.exponent() < 1023 {
            0
        } else if self.exponent() < 1075 {
            self.significand() / (pow2((1075 - self.exponent()) as nat) as int)
        } else {
            self.significand() * pow2((self.exponent() - 1075) as nat)
        }
    }

    /// The result of a truncating conversion to `u64`: zero for NaNs and negative
    /// values, the largest integer where the value is too large.
    pub open spec fn truncated(self) -> int {
        if self.nan() || self.negative() {
            0
        } else if self.whole() > u64::MAX {
            u64::MAX as int
        } else {
            self.whole()
        }
    }

    /// A value from its bit pattern.
    pub fn from_bits(bits: u64) -> (result: Binary64)
        ensures
            result.bits == bits,
    {
        Binary64 { bits }
    }

    /// The bit pattern.
    pub fn to_bits(self) -> (result: u64)
        ensures
            result == self.bits,
    {
        self.bits
    }

    fn unsigned(self) -> (result: u64)
        ensures
            result == self.magnitude(),
            result < SIGN_BIT,
    {
        if self.bits >= SIGN_BIT {
            self.bits - SIGN_BIT
        } else {
            self.bits
        }
    }

    /// Whether the sign bit is set.
    pub fn is_negative(self) -> (result: bool)
        ensures
            result == self.negative(),
    {
        self.bits >= SIGN_BIT
    }

    /// Whether the value is a NaN.
    pub fn is_nan(self) -> (result: bool)
        ensures
            result == self.nan(),
    {
        self.unsigned() > INFINITY_BITS
    }

    /// Whether the value is finite.
    pub fn is_finite(self) -> (result: bool)
        ensures
            result == self.finite(),
    {
        self.unsigned() < INFINITY_BITS
    }

    /// Whether the value is finite and greater than zero.
    pub fn is_positive(self) -> (result: bool)
        ensures
            result == self.positive(),
    {
        self.bits < INFINITY_BITS && self.bits > 0
    }

    /// Whether the value is finite and not below zero.
    pub fn is_nonnegative(self) -> (result: bool)
        ensures
            result == self.nonnegative(),
    {
        self.bits < INFINITY_BITS || self.bits == SIGN_BIT
    }

    /// The numeric comparison `self < other`.
    pub fn less(self, other: Binary64) -> (result: bool)
        ensures
            result == self.lt(other),
    {
        if self.is_nan() || other.is_nan() {
            return false;
        }
        let left: u64 = self.unsigned();
        let right: u64 = other.unsigned();
        if self.bits >= SIGN_BIT {
            if other.bits >= SIGN_BIT {
                left > right
            } else {
                left > 0 || right > 0
            }
        } else {
            other.bits < SIGN_BIT && left < right
        }
    }

    /// The numeric comparison `self <= other`.
    pub fn at_most(self, other: Binary64) -> (result: bool)
        ensures
            result == self.le(other),
    {
        !self.is_nan() && !other.is_nan() && !other.less(self)
    }

    /// The numeric comparison `self == other`.
    pub fn equals(self, other: Binary64) -> (result: bool)
        ensures
            result == self.same(other),
    {
        self.at_most(other) && other.at_most(self)
    }

    /// Whether `self` comes strictly before `other` in the total order of all patterns.
    pub fn totally_before(self, other: Binary64) -> (result: bool)
        ensures
            result == (self.total_rank() < other.total_rank()),
    {
        let left: u64 = self.unsigned();
        let right: u64 = other.unsigned();
        if self.bits >= SIGN_BIT {
            other.bits < SIGN_BIT || left > right
        } else {
            other.bits < SIGN_BIT && left < right
        }
    }

    /// The absolute value.
    pub fn abs(self) -> (result: Binary64)
        ensures
            result.bits == self.magnitude(),
    {
        Binary64 { bits: self.unsigned() }
    }

    /// The value with its sign bit flipped.
    pub open spec fn negated(self) -> Binary64 {
        if self.negative() {
            Binary64 { bits: (self.bits - SIGN_BIT) as u64 }
        } else {
            Binary64 { bits: (self.bits + SIGN_BIT) as u64 }
        }
    }

    /// Flip the sign.
    pub fn neg(self) -> (result: Binary64)
        ensures
            result == self.negated(),
    {
        if self.bits >= SIGN_BIT {
            Binary64 { bits: self.bits - SIGN_BIT }
        } else {
            Binary64 { bits: self.bits + SIGN_BIT }
        }
    }

    /// The smaller value. A NaN operand is passed over; of two equal values the first.
    pub open spec fn lesser(self, other: Binary64) -> Binary64 {
        if self.nan() || other.lt(self) {
            other
        } else {
            self
        }
    }

    /// The larger value. A NaN operand is passed over; of two equal values the first.
    pub open spec fn greater(self, other: Binary64) -> Binary64 {
        if self.nan() || self.lt(other) {
            other
        } else {
            self
        }
    }

    /// The smaller of two values.
    pub fn min(self, other: Binary64) -> (result: Binary64)
        ensures
            result == self.lesser(other),
    {
        if self.is_nan() || other.less(self) {
            other
        } else {
            self
        }
    }

    /// The larger of two values.
    pub fn max(self, other: Binary64) -> (result: Binary64)
        ensures
            result == self.greater(other),
    {
        if self.is_nan() || self.less(other) {
            other
        } else {
            self
        }
    }

    /// Truncate to an unsigned integer, saturating at both ends.
    pub fn to_u64(self) -> (result: u64)
        ensures
            result == self.truncated(),
    {
        if self.is_nan() || self.bits >= SIGN_BIT {
            return 0;
        }
        let exponent: u64 = self.bits / SIGNIFICAND_UNIT;
        let significand: u64 = SIGNIFICAND_UNIT + self.bits % SIGNIFICAND_UNIT;
        if exponent < 1023 {
            return 0;
        }
        proof {
            lemma2_to64();
        }
        if exponent < 1075 {
            let shift: u64 = 1075 - exponent;
            proof {
                lemma_u64_shr_is_div(significand, shift);
                lemma_pow2_pos(shift as nat);
                vstd::arithmetic::div_mod::lemma_div_is_ordered_by_denominator(
                    significand as int,
                    1,
                    pow2(shift as nat) as int,
                );
            }
            return significand >> shift;
        }
        let shift: u64 = exponent - 1075;
        if shift > 11 {
            proof {
                if shift > 12 {
                    lemma_pow2_strictly_increases(12, shift as nat);
                }
                assert(significand * pow2(shift as nat) >= significand * 4096) by (nonlinear_arith)
                    requires
                        pow2(shift as nat) >= 4096,
                        significand >= 0,
                ;
            }
            return u64::MAX;
        }
        proof {
            assert(shift <= 11);
            if shift < 11 {
                lemma_pow2_strictly_increases(shift as nat, 11);
            }
            assert(significand * pow2(shift as nat) <= significand * 2048) by (nonlinear_arith)
                requires
                    pow2(shift as nat) <= 2048,
                    significand >= 0,
            ;
            lemma_u64_shl_is_mul(significand, shift);
        }
        significand << shift
    }
}

/// Flipping the sign negates the rank, and flipping it twice changes nothing.
pub proof fn law_negation(value: Binary64)
    ensures
        value.negated().rank() == -value.rank(),
        value.negated().nan() == value.nan(),
        value.negated().negated() == value,
{
}

/// The numeric order is a total preorder on the values that are not NaN: any two compare,
/// and comparisons chain.
pub proof fn law_numbers_are_ordered(a: Binary64, b: Binary64, c: Binary64)
    requires
        !a.nan(),
        !b.nan(),
        !c.nan(),
    ensures
        a.le(b) || b.le(a),
        a.le(b) && b.le(c) ==> a.le(c),
        a.lt(b) <==> !b.le(a),
        a.same(b) <==> a.le(b) && b.le(a),
{
}

/// The total order refines the numeric order and separates every two patterns.
pub proof fn law_total_order_refines_the_numeric_order(a: Binary64, b: Binary64)
    ensures
        a.total_rank() == b.total_rank() ==> a == b,
        a.lt(b) ==> a.total_rank() < b.total_rank(),
        !a.nan() && !b.nan() && a.total_rank() <= b.total_rank() ==> a.le(b),
{
}

/// A NaN compares with nothing, itself included.
pub proof fn law_nan_is_unordered(a: Binary64, b: Binary64)
    requires
        a.nan(),
    ensures
        !a.lt(b),
        !b.lt(a),
        !a.le(b),
        !b.le(a),
        !a.same(a),
{
}

/// The order of numbers follows their patterns: upwards for positive signs, downwards for
/// negative ones, with every negative number below every positive one and both zeros equal.
pub proof fn law_order_follows_the_patterns(a: Binary64, b: Binary64)
    requires
        !a.nan(),
        !b.nan(),
    ensures
        a.bits < SIGN_BIT && b.bits < SIGN_BIT ==> (a.lt(b) <==> a.bits < b.bits),
        a.bits >= SIGN_BIT && b.bits >= SIGN_BIT ==> (a.lt(b) <==> b.bits < a.bits),
        a.bits > SIGN_BIT && b.bits < SIGN_BIT ==> a.lt(b),
        a.bits == SIGN_BIT && b.bits < SIGN_BIT ==> (a.lt(b) <==> b.bits != 0) && !b.lt(a),
        (Binary64 { bits: 0 }).same(Binary64 { bits: SIGN_BIT }),
        a.le(b) <==> !b.lt(a),
        a.same(b) <==> !a.lt(b) && !b.lt(a),
{
}

/// Patterns beyond the two infinities are no numbers.
pub proof fn law_nan_lies_beyond_infinity(value: Binary64)
    ensures
        value.nan() <==> (0x7ff0_0000_0000_0000 < value.bits && value.bits
            < 0x8000_0000_0000_0000) || 0xfff0_0000_0000_0000 < value.bits,
        (Binary64 { bits: NAN_BITS }).nan(),
        !value.nan() ==> value.le(Binary64 { bits: INFINITY_BITS }) && (Binary64 {
            bits: INFINITY_BITS,
        }).negated().le(value),
{
}

/// Finite, positive and nonnegative numbers are those between the bounds that their names
/// speak of.
pub proof fn law_classes_are_intervals(value: Binary64)
    ensures
        value.finite() <==> value.lt(Binary64 { bits: INFINITY_BITS }) && (Binary64 {
            bits: INFINITY_BITS,
        }).negated().lt(value),
        value.positive() <==> (Binary64 { bits: 0 }).lt(value) && value.lt(
            Binary64 { bits: INFINITY_BITS },
        ),
        value.nonnegative() <==> (Binary64 { bits: 0 }).le(value) && value.lt(
            Binary64 { bits: INFINITY_BITS },
        ),
        value.finite() ==> !value.nan(),
        value.positive() ==> value.nonnegative(),
        value.nonnegative() && value.negated().nonnegative() ==> value.same(Binary64 { bits: 0 }),
{
}

/// The smaller and the larger of two values: one of the two, on the right side of both, and
/// the other one where one of them is no number.
pub proof fn law_extrema(a: Binary64, b: Binary64)
    ensures
        a.lesser(b) == a || a.lesser(b) == b,
        a.greater(b) == a || a.greater(b) == b,
        !a.nan() && !b.nan() ==> {
            &&& a.lesser(b).le(a) && a.lesser(b).le(b)
            &&& a.le(a.greater(b)) && b.le(a.greater(b))
        },
        a.nan() ==> a.lesser(b) == b && a.greater(b) == b,
        b.nan() && !a.nan() ==> a.lesser(b) == a && a.greater(b) == a,
        a.same(b) ==> a.lesser(b) == a && a.greater(b) == a,
{
}

/// Flipping the sign changes nothing but the sign bit, and mirrors the order.
pub proof fn law_signs(a: Binary64, b: Binary64)
    ensures
        a.negated().magnitude() == a.magnitude(),
        a.negated().negative() != a.negative(),
        a.negative() <==> a.bits >= 0x8000_0000_0000_0000,
        a.lt(b) <==> b.negated().lt(a.negated()),
        a.le(b) <==> b.negated().le(a.negated()),
        (Binary64 { bits: a.magnitude() as u64 }) == a || (Binary64 { bits: a.magnitude() as u64 })
            == a.negated(),
        !(Binary64 { bits: a.magnitude() as u64 }).negative(),
{
}

/// A pattern is the number next to a positive fraction: no other number of its precision is
/// closer.
pub open spec fn nearest(value: Binary64, numerator: int, denominator: int) -> bool {
    let unit = pow2((1075 - value.exponent()) as nat) as int;
    let error = value.significand() * denominator - numerator * unit;
    &&& !value.negative()
    &&& 0 < value.exponent() <= 1075
    &&& -denominator <= 2 * error <= denominator
}

/// The common constants are what their names say.
pub proof fn law_common_constants()
    ensures
        nearest(Binary64 { bits: HALF_BITS }, 1, 2),
        nearest(Binary64 { bits: ONE_BITS }, 1, 1),
        nearest(Binary64 { bits: TWO_BITS }, 2, 1),
        (Binary64 { bits: NAN_BITS }).nan(),
        (Binary64 { bits: INFINITY_BITS }).exponent() == 2047,
        (Binary64 { bits: INFINITY_BITS }).significand() == SIGNIFICAND_UNIT,
        SIGNIFICAND_UNIT == pow2(52),
        SIGN_BIT == pow2(63),
{
    lemma2_to64();
    lemma2_to64_rest();
}

/// Truncation cuts a number down to the integer part and never beyond: what is cut off is
/// less than one.
pub proof fn law_truncation_is_the_integer_part(value: Binary64)
    requires
        value.nonnegative(),
        value.exponent() < 1075,
    ensures
        value.exponent() < 1023 ==> value.truncated() == 0,
        1023 <= value.exponent() ==> {
            let unit = pow2((1075 - value.exponent()) as nat) as int;
            &&& value.truncated() * unit <= value.significand()
            &&& value.significand() < (value.truncated() + 1) * unit
        },
{
    if value.exponent() >= 1023 {
        let unit = pow2((1075 - value.exponent()) as nat) as int;
        lemma_pow2_pos((1075 - value.exponent()) as nat);
        let significand = value.significand();
        vstd::arithmetic::div_mod::lemma_fundamental_div_mod(significand, unit);
        let whole = significand / unit;
        assert(significand < 2 * SIGNIFICAND_UNIT);
        assert(whole <= significand) by (nonlinear_arith)
            requires
                unit >= 1,
                significand == unit * whole + significand % unit,
                significand % unit >= 0,
                significand >= 0,
        ;
        if value.negative() {
            assert(value.magnitude() == 0);
            assert(value.exponent() == 0);
        }
        assert(whole >= 0) by (nonlinear_arith)
            requires
                unit >= 1,
                significand == unit * whole + significand % unit,
                significand % unit < unit,
                significand >= 0,
        ;
        assert(value.truncated() == whole);
        assert(whole * unit <= significand < (whole + 1) * unit) by (nonlinear_arith)
            requires
                unit >= 1,
                significand == unit * whole + significand % unit,
                0 <= significand % unit < unit,
        ;
    }
}

/// Truncation saturates: what lies below zero becomes zero, what lies beyond the largest
/// integer becomes that integer, and what is no number becomes zero.
pub proof fn law_truncation_saturates(value: Binary64)
    ensures
        0 <= value.truncated() <= u64::MAX,
        value.nan() ==> value.truncated() == 0,
        value.le(Binary64 { bits: 0 }) ==> value.truncated() == 0,
        !value.negative() && !value.nan() && value.exponent() >= 1087 ==> value.truncated()
            == u64::MAX,
        !value.negative() && !value.nan() && 1075 <= value.exponent() < 1087 ==> value.truncated()
            == value.significand() * pow2((value.exponent() - 1075) as nat),
{
    lemma2_to64();
    lemma2_to64_rest();
    let e = value.exponent();
    if e >= 1075 {
        let power = pow2((e - 1075) as nat) as int;
        lemma_pow2_pos((e - 1075) as nat);
        assert(value.significand() >= SIGNIFICAND_UNIT);
        if e >= 1087 {
            if e > 1087 {
                lemma_pow2_strictly_increases(12, (e - 1075) as nat);
            }
            assert(value.significand() * power >= 0x1_0000_0000_0000_0000) by (nonlinear_arith)
                requires
                    value.significand() >= 0x0010_0000_0000_0000,
                    power >= 4096,
            ;
        } else {
            if e < 1086 {
                lemma_pow2_strictly_increases((e - 1075) as nat, 11);
            }
            assert(0 <= value.significand() * power <= u64::MAX) by (nonlinear_arith)
                requires
                    0 <= value.significand() <= 0x001f_ffff_ffff_ffff,
                    0 <= power <= 2048,
            ;
        }
    } else if e >= 1023 {
        let unit = pow2((1075 - e) as nat) as int;
        lemma_pow2_pos((1075 - e) as nat);
        vstd::arithmetic::div_mod::lemma_div_pos_is_pos(value.significand(), unit);
        vstd::arithmetic::div_mod::lemma_div_nonincreasing(value.significand(), unit);
    }
    if value.le(Binary64 { bits: 0 }) && !value.negative() {
        assert(value.magnitude() == 0);
    }
}

} // verus!
