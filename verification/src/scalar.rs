//! Single-precision numbers held by their IEEE 754 bit pattern.
//!
//! The engine never does arithmetic on a number: it orders numbers, tells
//! finite ones from the rest and copies them. All of that can be read off the
//! 32-bit pattern, so a [`Scalar`] is that pattern, and every question the
//! engine asks of it is answered by integer code that is proved against the
//! number the pattern encodes.

use vstd::prelude::*;
use vstd::arithmetic::power2::pow2;
use vstd::arithmetic::power2::lemma_pow2_pos;
use vstd::arithmetic::power2::lemma_pow2_unfold;
use vstd::arithmetic::power2::lemma_pow2_strictly_increases;

verus! {

/// The pattern of the sign bit.
pub const SIGN_BIT: u32 = 0x8000_0000;

/// The pattern of positive infinity: every exponent bit set, no fraction bit.
pub const INFINITY_BITS: u32 = 0x7f80_0000;

/// The weight of the lowest exponent bit, and one more than the largest fraction.
pub const HIDDEN_BIT: u32 = 0x0080_0000;

/// A binary32 number, given by its bit pattern.
///
/// `==` compares patterns: it tells the two zeros apart and finds a NaN equal
/// to itself. [`Scalar::equals`] compares as numbers.
#[derive(Clone, Copy, Debug, PartialEq, Eq, Structural)]
pub struct Scalar {
    pub bits: u32,
}

/// The number that the sign-free pattern `m` encodes, in units of 2^-149.
///
/// With a zero exponent field the fraction counts those units directly. With
/// exponent field `e >= 1` the significand is the fraction with the hidden bit
/// set, and it is worth `2^(e-1)` units. The pattern of infinity is read as if
/// it were a normal number, which puts it above every finite one.
pub open spec fn units(m: int) -> int {
    let e = m / 0x0080_0000;
    let f = m % 0x0080_0000;
    if e == 0 {
        f
    } else {
        (0x0080_0000 + f) * pow2((e - 1) as nat)
    }
}

impl Scalar {
    /// The pattern without its sign bit.
    pub open spec fn magnitude(self) -> int {
        if self.bits >= SIGN_BIT {
            self.bits - SIGN_BIT
        } else {
            self.bits as int
        }
    }

    /// Whether the sign bit is set.
    pub open spec fn negative(self) -> bool {
        self.bits >= SIGN_BIT
    }

    /// Not a number: every exponent bit set and some fraction bit.
    pub open spec fn nan(self) -> bool {
        self.magnitude() > INFINITY_BITS
    }

    /// Zero, subnormal or normal.
    pub open spec fn finite(self) -> bool {
        self.magnitude() < INFINITY_BITS
    }

    /// Neither zero, subnormal, infinite nor NaN.
    pub open spec fn normal(self) -> bool {
        HIDDEN_BIT <= self.magnitude() < INFINITY_BITS
    }

    /// Positive or negative zero.
    pub open spec fn zero(self) -> bool {
        self.magnitude() == 0
    }

    /// The encoded number in units of 2^-149; meaningful unless `nan()`.
    pub open spec fn value(self) -> int {
        if self.negative() {
            -units(self.magnitude())
        } else {
            units(self.magnitude())
        }
    }

    /// The pattern as a signed integer: the magnitude, negated under a sign bit.
    pub open spec fn rank(self) -> int {
        if self.negative() {
            -self.magnitude()
        } else {
            self.magnitude()
        }
    }

    /// `self < other` as numbers; false when either is NaN.
    pub open spec fn below(self, other: Scalar) -> bool {
        !self.nan() && !other.nan() && self.value() < other.value()
    }

    /// `self <= other` as numbers; false when either is NaN.
    pub open spec fn at_most(self, other: Scalar) -> bool {
        !self.nan() && !other.nan() && self.value() <= other.value()
    }

    /// `self == other` as numbers: the two zeros are equal, NaN equals nothing.
    pub open spec fn same(self, other: Scalar) -> bool {
        !self.nan() && !other.nan() && self.value() == other.value()
    }

    /// The result of clamping `self` to `[lo, hi]`.
    pub open spec fn clamped(self, lo: Scalar, hi: Scalar) -> Scalar {
        if self.below(lo) {
            lo
        } else if hi.below(self) {
            hi
        } else {
            self
        }
    }

    /// The larger of the two, NaN giving way to a number.
    pub open spec fn larger(self, other: Scalar) -> Scalar {
        if self.nan() || self.below(other) {
            other
        } else {
            self
        }
    }

    pub fn from_bits(bits: u32) -> (s: Scalar)
        ensures
            s.bits == bits,
    {
        Scalar { bits }
    }

    pub fn to_bits(self) -> (bits: u32)
        ensures
            bits == self.bits,
    {
        self.bits
    }

    fn magnitude_bits(self) -> (m: u32)
        ensures
            m == self.magnitude(),
    {
        if self.bits >= SIGN_BIT {
            self.bits - SIGN_BIT
        } else {
            self.bits
        }
    }

    fn signed_rank(self) -> (r: i64)
        ensures
            r == self.rank(),
    {
        let m: u32 = self.magnitude_bits();
        if self.bits >= SIGN_BIT {
            -(m as i64)
        } else {
            m as i64
        }
    }

    pub fn is_sign_negative(self) -> (b: bool)
        ensures
            b == self.negative(),
    {
        self.bits >= SIGN_BIT
    }

    pub fn is_nan(self) -> (b: bool)
        ensures
            b == self.nan(),
    {
        self.magnitude_bits() > INFINITY_BITS
    }

    pub fn is_finite(self) -> (b: bool)
        ensures
            b == self.finite(),
    {
        self.magnitude_bits() < INFINITY_BITS
    }

    pub fn is_normal(self) -> (b: bool)
        ensures
            b == self.normal(),
    {
        let m: u32 = self.magnitude_bits();
        HIDDEN_BIT <= m && m < INFINITY_BITS
    }

    pub fn is_zero(self) -> (b: bool)
        ensures
            b == self.zero(),
            b == (!self.nan() && self.value() == 0),
    {
        proof {
            if !self.nan() {
                lemma_units_increase(0, self.magnitude());
            }
        }
        self.magnitude_bits() == 0
    }

    /// `self < other`.
    pub fn lt(self, other: Scalar) -> (b: bool)
        ensures
            b == self.below(other),
    {
        proof {
            if !self.nan() && !other.nan() {
                lemma_rank_orders(self, other);
            }
        }
        !self.is_nan() && !other.is_nan() && self.signed_rank() < other.signed_rank()
    }

    /// `self <= other`.
    pub fn le(self, other: Scalar) -> (b: bool)
        ensures
            b == self.at_most(other),
    {
        proof {
            if !self.nan() && !other.nan() {
                lemma_rank_orders(self, other);
            }
        }
        !self.is_nan() && !other.is_nan() && self.signed_rank() <= other.signed_rank()
    }

    /// `self > other`.
    pub fn gt(self, other: Scalar) -> (b: bool)
        ensures
            b == other.below(self),
    {
        other.lt(self)
    }

    /// `self >= other`.
    pub fn ge(self, other: Scalar) -> (b: bool)
        ensures
            b == other.at_most(self),
    {
        other.le(self)
    }

    /// `self == other` as numbers.
    pub fn equals(self, other: Scalar) -> (b: bool)
        ensures
            b == self.same(other),
    {
        proof {
            if !self.nan() && !other.nan() {
                lemma_rank_orders(self, other);
            }
        }
        !self.is_nan() && !other.is_nan() && self.signed_rank() == other.signed_rank()
    }

    /// Restricts `self` to `[lo, hi]`. A NaN stays a NaN, and a zero inside
    /// the interval keeps its sign.
    pub fn clamp(self, lo: Scalar, hi: Scalar) -> (r: Scalar)
        requires
            lo.at_most(hi),
        ensures
            r == self.clamped(lo, hi),
            !self.nan() ==> lo.at_most(r) && r.at_most(hi),
            self.nan() ==> r == self,
    {
        if self.lt(lo) {
            lo
        } else if self.gt(hi) {
            hi
        } else {
            self
        }
    }

    /// The larger of two numbers. A NaN gives way to the other argument; of
    /// two equal numbers the receiver is returned.
    pub fn max(self, other: Scalar) -> (r: Scalar)
        ensures
            r == self.larger(other),
            r == self || r == other,
            !self.nan() && !other.nan() ==> self.at_most(r) && other.at_most(r),
    {
        if self.is_nan() || self.lt(other) {
            other
        } else {
            self
        }
    }
}

/// A larger sign-free pattern encodes a larger number, up to and including
/// the pattern of infinity.
pub proof fn lemma_units_increase(m1: int, m2: int)
    requires
        0 <= m1 <= m2 <= INFINITY_BITS,
    ensures
        0 <= units(m1) <= units(m2),
        m1 < m2 ==> units(m1) < units(m2),
{
    let h: int = 0x0080_0000;
    let e1 = m1 / h;
    let f1 = m1 % h;
    let e2 = m2 / h;
    let f2 = m2 % h;
    assert(0 <= f1 < h && 0 <= f2 < h);
    assert(m1 == e1 * h + f1 && m2 == e2 * h + f2);
    assert(0 <= e1 <= e2 <= 255);
    if e1 >= 1 {
        lemma_pow2_pos((e1 - 1) as nat);
        assert((h + f1) * pow2((e1 - 1) as nat) >= 0) by (nonlinear_arith)
            requires
                h + f1 >= 0,
                pow2((e1 - 1) as nat) > 0,
        ;
    }
    if e1 == e2 {
        assert(f1 <= f2);
        if e1 >= 1 {
            let scale = pow2((e1 - 1) as nat) as int;
            assert((h + f1) * scale <= (h + f2) * scale) by (nonlinear_arith)
                requires
                    f1 <= f2,
                    scale > 0,
            ;
            if f1 < f2 {
                assert((h + f1) * scale < (h + f2) * scale) by (nonlinear_arith)
                    requires
                        f1 < f2,
                        scale > 0,
                ;
            }
        }
    } else {
        let high_scale = pow2((e2 - 1) as nat) as int;
        lemma_pow2_pos((e2 - 1) as nat);
        assert(h * high_scale <= (h + f2) * high_scale) by (nonlinear_arith)
            requires
                f2 >= 0,
                high_scale > 0,
                h > 0,
        ;
        if e1 == 0 {
            assert(h * 1 <= h * high_scale) by (nonlinear_arith)
                requires
                    high_scale >= 1,
                    h > 0,
            ;
        } else {
            let low_scale = pow2((e1 - 1) as nat) as int;
            lemma_pow2_unfold(e1 as nat);
            let q = pow2(e1 as nat) as int;
            assert(q == 2 * low_scale);
            if e1 < e2 - 1 {
                lemma_pow2_strictly_increases(e1 as nat, (e2 - 1) as nat);
            }
            assert(q <= high_scale);
            assert((h + f1) * low_scale < h * q) by (nonlinear_arith)
                requires
                    f1 < h,
                    low_scale > 0,
                    q == 2 * low_scale,
            ;
            assert(h * q <= h * high_scale) by (nonlinear_arith)
                requires
                    q <= high_scale,
                    h > 0,
            ;
        }
    }
}

/// Ordering two numbers is ordering their patterns as signed integers: for
/// any two that are not NaN, the ranks compare as the encoded numbers do.
pub proof fn lemma_rank_orders(a: Scalar, b: Scalar)
    requires
        !a.nan(),
        !b.nan(),
    ensures
        a.rank() < b.rank() <==> a.value() < b.value(),
        a.rank() == b.rank() <==> a.value() == b.value(),
        a.rank() <= b.rank() <==> a.value() <= b.value(),
{
    let ma = a.magnitude();
    let mb = b.magnitude();
    lemma_units_increase(0, ma);
    lemma_units_increase(0, mb);
    if ma <= mb {
        lemma_units_increase(ma, mb);
    } else {
        lemma_units_increase(mb, ma);
    }
    assert(units(0) == 0);
}

} // verus!
