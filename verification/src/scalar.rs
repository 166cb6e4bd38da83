//! Double-precision numbers as bit patterns.
//!
//! The tracer's geometry is computed in IEEE-754 binary64 arithmetic by its
//! caller. What the tracer itself does with such numbers is to compare them,
//! to negate them and to turn a colour channel into a byte. All of that is
//! exact on the 64-bit pattern, so a [`Scalar`] is that pattern, and every
//! operation here is integer code proved against an integer model of the
//! number it stands for.
use vstd::prelude::*;
use vstd::arithmetic::power2::{lemma_pow2_pos, lemma_pow2_strictly_increases, lemma_pow2_unfold, pow2};

verus! {

/// The sign bit of a pattern.
pub const SIGN_BIT: u64 = 0x8000_0000_0000_0000;

/// The pattern of positive infinity; a larger magnitude is not a number.
pub const INFINITY_BITS: u64 = 0x7ff0_0000_0000_0000;

/// The number of patterns that share one exponent: 2^52.
pub const FRACTION_RANGE: u64 = 0x10_0000_0000_0000;

/// The pattern of `0.0`.
pub const ZERO_BITS: u64 = 0;

/// The pattern of `1.0`.
pub const ONE_BITS: u64 = 0x3ff0_0000_0000_0000;

/// An IEEE-754 binary64 number, held as its bit pattern.
///
/// The derived `==` compares patterns: it tells `0.0` from `-0.0` and finds a
/// NaN equal to itself. Equality of the numbers is [`Scalar::equals`].
#[derive(Clone, Copy, Debug, PartialEq, Eq, Structural)]
pub struct Scalar {
    pub bits: u64,
}

impl Scalar {
    /// The pattern without its sign bit.
    pub open spec fn magnitude(self) -> int {
        if self.bits >= SIGN_BIT {
            self.bits - SIGN_BIT
        } else {
            self.bits as int
        }
    }

    /// Whether the sign bit is set.
    pub open spec fn negative(self) -> bool {
        self.bits >= SIGN_BIT
    }

    /// Whether the pattern is not a number.
    pub open spec fn nan(self) -> bool {
        self.magnitude() > INFINITY_BITS
    }

    /// The place of the number among all doubles: the magnitude of the
    /// pattern, with the sign of the number. Both zeros have rank 0.
    pub open spec fn rank(self) -> int {
        if self.negative() {
            -self.magnitude()
        } else {
            self.magnitude()
        }
    }

    /// The biased exponent field.
    pub open spec fn exponent(self) -> int {
        self.magnitude() / (FRACTION_RANGE as int)
    }

    /// The fraction field.
    pub open spec fn fraction(self) -> int {
        self.magnitude() % (FRACTION_RANGE as int)
    }

    /// The significand as a whole number: the fraction, with the hidden bit
    /// where the number is normal.
    pub open spec fn significand(self) -> int {
        if self.exponent() == 0 {
            self.fraction()
        } else {
            FRACTION_RANGE + self.fraction()
        }
    }

    /// The absolute value of the number, counted in units of 2^-1074, the
    /// smallest positive double. Every finite double is a whole number of
    /// them. For an infinity the formula gives 2^2098, which is beyond every
    /// finite double.
    pub open spec fn size(self) -> int {
        if self.exponent() == 0 {
            self.significand()
        } else {
            self.significand() * pow2((self.exponent() - 1) as nat)
        }
    }

    /// The number, counted in units of 2^-1074.
    pub open spec fn value(self) -> int {
        if self.negative() {
            -self.size()
        } else {
            self.size()
        }
    }

    /// The pattern with its sign bit flipped: that of the negated number.
    pub open spec fn flipped(self) -> u64 {
        if self.bits >= SIGN_BIT {
            (self.bits - SIGN_BIT) as u64
        } else {
            (self.bits + SIGN_BIT) as u64
        }
    }

    /// `self < other` as IEEE-754 has it: false where either is not a number.
    pub open spec fn less(self, other: Scalar) -> bool {
        !self.nan() && !other.nan() && self.rank() < other.rank()
    }

    /// `self == other` as IEEE-754 has it: false where either is not a
    /// number, true of the two zeros.
    pub open spec fn same(self, other: Scalar) -> bool {
        !self.nan() && !other.nan() && self.rank() == other.rank()
    }

    /// The scalar with the given pattern.
    pub fn from_bits(bits: u64) -> (s: Scalar)
        ensures
            s.bits == bits,
    {
        Scalar { bits }
    }

    /// The pattern.
    pub fn to_bits(self) -> (bits: u64)
        ensures
            bits == self.bits,
    {
        self.bits
    }

    /// `0.0`.
    pub fn zero() -> (s: Scalar)
        ensures
            s.bits == ZERO_BITS,
    {
        Scalar { bits: ZERO_BITS }
    }

    /// `1.0`.
    pub fn one() -> (s: Scalar)
        ensures
            s.bits == ONE_BITS,
    {
        Scalar { bits: ONE_BITS }
    }

    /// Positive infinity.
    pub fn infinity() -> (s: Scalar)
        ensures
            s.bits == INFINITY_BITS,
    {
        Scalar { bits: INFINITY_BITS }
    }

    fn magnitude_bits(self) -> (m: u64)
        ensures
            m == self.magnitude(),
    {
        if self.bits >= SIGN_BIT {
            self.bits - SIGN_BIT
        } else {
            self.bits
        }
    }

    /// Whether the scalar is not a number.
    pub fn is_nan(self) -> (r: bool)
        ensures
            r == self.nan(),
    {
        self.magnitude_bits() > INFINITY_BITS
    }

    /// Whether the sign bit is set.
    pub fn is_negative(self) -> (r: bool)
        ensures
            r == self.negative(),
    {
        self.bits >= SIGN_BIT
    }

    /// `self < other`.
    pub fn lt(self, other: Scalar) -> (r: bool)
        ensures
            r == self.less(other),
    {
        if self.is_nan() || other.is_nan() {
            return false;
        }
        let a: u64 = self.magnitude_bits();
        let b: u64 = other.magnitude_bits();
        if self.is_negative() {
            if other.is_negative() {
                a > b
            } else {
                a != 0 || b != 0
            }
        } else {
            if other.is_negative() {
                false
            } else {
                a < b
            }
        }
    }

    /// `self > other`.
    pub fn gt(self, other: Scalar) -> (r: bool)
        ensures
            r == other.less(self),
    {
        other.lt(self)
    }

    /// `self == other`, between the numbers.
    pub fn equals(self, other: Scalar) -> (r: bool)
        ensures
            r == self.same(other),
    {
        if self.is_nan() || other.is_nan() {
            return false;
        }
        let a: u64 = self.magnitude_bits();
        let b: u64 = other.magnitude_bits();
        if self.is_negative() == other.is_negative() {
            a == b
        } else {
            a == 0 && b == 0
        }
    }

    /// `self <= other`.
    pub fn le(self, other: Scalar) -> (r: bool)
        ensures
            r == (self.less(other) || self.same(other)),
    {
        self.lt(other) || self.equals(other)
    }

    /// `self >= other`.
    pub fn ge(self, other: Scalar) -> (r: bool)
        ensures
            r == (other.less(self) || other.same(self)),
    {
        other.lt(self) || other.equals(self)
    }

    /// `-self`: the same pattern with the sign bit flipped, a NaN included.
    pub fn neg(self) -> (r: Scalar)
        ensures
            r.bits == self.flipped(),
            r.magnitude() == self.magnitude(),
            r.negative() == !self.negative(),
            r.rank() == -self.rank(),
    {
        if self.bits >= SIGN_BIT {
            Scalar { bits: self.bits - SIGN_BIT }
        } else {
            Scalar { bits: self.bits + SIGN_BIT }
        }
    }

    /// `|self|`: the same pattern with the sign bit cleared.
    pub fn abs(self) -> (r: Scalar)
        ensures
            r.bits == self.magnitude(),
    {
        Scalar { bits: self.magnitude_bits() }
    }
}

/// A larger magnitude is a larger absolute value.
pub proof fn lemma_size_increases(a: Scalar, b: Scalar)
    requires
        a.magnitude() < b.magnitude(),
    ensures
        0 <= a.size() < b.size(),
{
    let r = FRACTION_RANGE as int;
    let ea = a.exponent();
    let eb = b.exponent();
    let fa = a.fraction();
    let fb = b.fraction();
    assert(ea <= eb);
    if eb == 0 {
    } else {
        let pb = pow2((eb - 1) as nat) as int;
        lemma_pow2_pos((eb - 1) as nat);
        if ea == 0 {
            assert(r <= (r + fb) * pb) by (nonlinear_arith)
                requires
                    pb >= 1,
                    fb >= 0,
                    r >= 0,
            ;
        } else {
            let pa = pow2((ea - 1) as nat) as int;
            lemma_pow2_pos((ea - 1) as nat);
            assert(0 <= (r + fa) * pa) by (nonlinear_arith)
                requires
                    pa >= 1,
                    fa >= 0,
                    r >= 0,
            ;
            if ea == eb {
                assert((r + fa) * pa < (r + fb) * pa) by (nonlinear_arith)
                    requires
                        pa >= 1,
                        fa < fb,
                ;
            } else {
                lemma_pow2_unfold(ea as nat);
                if ea < eb - 1 {
                    lemma_pow2_strictly_increases(ea as nat, (eb - 1) as nat);
                }
                assert(2 * pa <= pb);
                assert((r + fa) * pa < (r + fb) * pb) by (nonlinear_arith)
                    requires
                        pa >= 1,
                        2 * pa <= pb,
                        0 <= fa < r,
                        0 <= fb,
                ;
            }
        }
    }
}

/// The rank orders the scalars as their values do: of two scalars the one
/// with the lower rank is the lower number, and two of one rank are one
/// number. So `less` and `same` compare the numbers that the patterns stand
/// for.
pub proof fn lemma_rank_orders_values(a: Scalar, b: Scalar)
    ensures
        a.rank() < b.rank() <==> a.value() < b.value(),
        a.rank() == b.rank() <==> a.value() == b.value(),
{
    let zero = Scalar { bits: ZERO_BITS };
    assert(zero.size() == 0);
    if a.magnitude() > 0 {
        lemma_size_increases(zero, a);
    } else {
        assert(a.size() == 0);
    }
    if b.magnitude() > 0 {
        lemma_size_increases(zero, b);
    } else {
        assert(b.size() == 0);
    }
    if a.magnitude() < b.magnitude() {
        lemma_size_increases(a, b);
    } else if b.magnitude() < a.magnitude() {
        lemma_size_increases(b, a);
    } else {
        assert(a.size() == b.size());
    }
}

} // verus!
