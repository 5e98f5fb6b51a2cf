//! Ratings, held as the bit pattern of an IEEE 754 double.

use vstd::prelude::*;
use vstd::arithmetic::power2::{
    lemma2_to64, lemma2_to64_rest, lemma_pow2_adds, lemma_pow2_pos, lemma_pow2_strictly_increases,
    pow2,
};

verus! {

/// The bit pattern of `5.0`.
pub const FIVE_BITS: u64 = 0x4014_0000_0000_0000;

/// The bit pattern of `-0.0`: the sign bit alone.
pub const NEGATIVE_ZERO_BITS: u64 = 0x8000_0000_0000_0000;

/// The number of patterns of the 52 fraction bits.
pub const FRACTION_SPAN: u64 = 0x10_0000_0000_0000;

/// The number of patterns of the 11 exponent bits.
pub const EXPONENT_SPAN: u64 = 0x800;

/// The exponent field of an infinity or a NaN.
pub const EXPONENT_TOP: u64 = 0x7ff;

/// A rating as it travels on the wire: a double, kept here by its bits so
/// that it can be compared and copied without floating-point arithmetic.
///
/// The bits are, from the highest down, one sign bit, 11 exponent bits and
/// 52 fraction bits. Where the exponent field is below its top, the double
/// is a number: its sign, and a magnitude that is a whole multiple of two
/// to the power of -1074.
#[derive(Clone, Copy, Debug, PartialEq, Eq, Structural)]
pub struct Rating {
    pub bits: u64,
}

impl Rating {
    /// The sign bit is set.
    pub open spec fn negative(self) -> bool {
        self.bits >= NEGATIVE_ZERO_BITS
    }

    /// The exponent field.
    pub open spec fn exponent(self) -> nat {
        ((self.bits / FRACTION_SPAN) % EXPONENT_SPAN) as nat
    }

    /// The fraction field.
    pub open spec fn fraction(self) -> nat {
        (self.bits % FRACTION_SPAN) as nat
    }

    /// The double is a number, neither an infinity nor a NaN.
    pub open spec fn is_number(self) -> bool {
        self.exponent() < EXPONENT_TOP
    }

    /// The magnitude of a number, counted in units of two to the power of
    /// -1074: the fraction alone where the exponent field is zero, else the
    /// fraction with a leading one, doubled once for each step of the
    /// exponent field above one.
    pub open spec fn magnitude(self) -> nat {
        if self.exponent() == 0 {
            self.fraction()
        } else {
            ((FRACTION_SPAN + self.fraction()) * pow2((self.exponent() - 1) as nat)) as nat
        }
    }

    /// The double is a number in the closed range from 0 to 5: it is zero,
    /// of either sign, or it is positive and its magnitude is at most 5.
    pub open spec fn in_scale(self) -> bool {
        self.is_number() && (self.magnitude() == 0 || (!self.negative() && self.magnitude() <= 5
            * pow2(1074)))
    }

    /// The double is a number in the half-open range from 0 up to, not
    /// including, 5.
    pub open spec fn below_top(self) -> bool {
        self.is_number() && (self.magnitude() == 0 || (!self.negative() && self.magnitude() < 5
            * pow2(1074)))
    }

    /// The rating with the given bit pattern.
    pub fn from_bits(bits: u64) -> (rating: Rating)
        ensures
            rating.bits == bits,
    {
        Rating { bits }
    }

    /// The bit pattern of the rating.
    pub fn to_bits(&self) -> (bits: u64)
        ensures
            bits == self.bits,
    {
        self.bits
    }

    /// Tests whether the rating lies between 0 and 5, both included.
    pub fn is_in_scale(&self) -> (ok: bool)
        ensures
            ok == self.in_scale(),
    {
        proof {
            lemma_scale_in_bits(*self);
        }
        self.bits <= FIVE_BITS || self.bits == NEGATIVE_ZERO_BITS
    }

    /// Tests whether the rating is at least 0 and less than 5.
    pub fn is_below_top(&self) -> (ok: bool)
        ensures
            ok == self.below_top(),
    {
        proof {
            lemma_scale_in_bits(*self);
        }
        self.bits < FIVE_BITS || self.bits == NEGATIVE_ZERO_BITS
    }
}

/// The magnitude of a number with a leading one lies between two
/// neighbouring powers of two.
proof fn lemma_magnitude_bounds(rating: Rating)
    requires
        rating.exponent() >= 1,
    ensures
        pow2(51 + rating.exponent()) <= rating.magnitude() < pow2(52 + rating.exponent()),
{
    let below = (rating.exponent() - 1) as nat;
    let fraction = rating.fraction() as int;
    let step = pow2(below) as int;
    lemma2_to64_rest();
    lemma_pow2_adds(52, below);
    lemma_pow2_adds(53, below);
    lemma_pow2_pos(below);
    assert(0 <= fraction < 0x10_0000_0000_0000);
    assert((0x10_0000_0000_0000 + fraction) * step >= 0x10_0000_0000_0000 * step)
        by (nonlinear_arith)
        requires
            fraction >= 0,
            step > 0,
    ;
    assert((0x10_0000_0000_0000 + fraction) * step < 0x20_0000_0000_0000 * step)
        by (nonlinear_arith)
        requires
            fraction < 0x10_0000_0000_0000,
            step > 0,
    ;
}

/// Powers of two grow with their exponents.
proof fn lemma_pow2_grows(low: nat, high: nat)
    requires
        low <= high,
    ensures
        pow2(low) <= pow2(high),
{
    if low < high {
        lemma_pow2_strictly_increases(low, high);
    }
}

/// Numbers that are not negative order as their bit patterns do: the
/// rating lies between 0 and 5 exactly where its pattern is at most that of
/// `5.0` or is that of `-0.0`, and it lies below 5 exactly where its
/// pattern is below that of `5.0` or is that of `-0.0`.
pub proof fn lemma_scale_in_bits(rating: Rating)
    ensures
        rating.in_scale() <==> (rating.bits <= FIVE_BITS || rating.bits == NEGATIVE_ZERO_BITS),
        rating.below_top() <==> (rating.bits < FIVE_BITS || rating.bits == NEGATIVE_ZERO_BITS),
{
    let exponent = rating.exponent();
    let fraction = rating.fraction();
    let five = 5 * pow2(1074);
    lemma2_to64();
    lemma2_to64_rest();
    lemma_pow2_pos(1074);
    if exponent >= 1 {
        lemma_magnitude_bounds(rating);
        lemma_pow2_pos(51 + exponent);
    }
    if rating.negative() {
        assert(rating.bits == NEGATIVE_ZERO_BITS + exponent * FRACTION_SPAN + fraction);
    } else {
        assert(rating.bits == exponent * FRACTION_SPAN + fraction);
        if exponent == 0 {
            lemma_pow2_grows(52, 1074);
        } else if exponent <= 1024 {
            lemma_pow2_grows(52 + exponent, 1076);
            lemma_pow2_adds(2, 1074);
        } else if exponent == 1025 {
            let step = pow2(1024) as int;
            lemma_pow2_adds(50, 1024);
            lemma_pow2_pos(1024);
            assert(five == (5 * 0x4_0000_0000_0000) * step) by (nonlinear_arith)
                requires
                    five == 5 * pow2(1074),
                    pow2(1074) == 0x4_0000_0000_0000 * step,
            ;
            let whole = (FRACTION_SPAN + fraction) as int;
            assert(rating.magnitude() == whole * step);
            assert(whole <= 5 * 0x4_0000_0000_0000 <==> whole * step <= (5 * 0x4_0000_0000_0000)
                * step) by (nonlinear_arith)
                requires
                    step > 0,
            ;
            assert(whole < 5 * 0x4_0000_0000_0000 <==> whole * step < (5 * 0x4_0000_0000_0000)
                * step) by (nonlinear_arith)
                requires
                    step > 0,
            ;
        } else {
            lemma_pow2_grows(1077, 51 + exponent);
            lemma_pow2_adds(3, 1074);
        }
    }
}

} // verus!
