//! Single-precision numbers, held by their IEEE-754 binary32 bit patterns.
//!
//! The renderer's decisions are comparisons between such numbers. Comparing,
//! negating and clamping are exact operations on the bit pattern, so they are
//! done here on integers; whatever rounds is left to the caller.
use vstd::prelude::*;

verus! {

/// The sign bit of a binary32 pattern.
pub const SIGN_BIT: u32 = 0x8000_0000;

/// The magnitude bits of infinity. Every larger magnitude encodes a NaN.
pub const INFINITY_BITS: u32 = 0x7f80_0000;

/// The pattern of `1.0`.
pub const ONE_BITS: u32 = 0x3f80_0000;

/// A single-precision number, held by its bit pattern.
#[derive(Clone, Copy, Debug)]
pub struct Scalar {
    pub bits: u32,
}

impl Scalar {
    /// The sign bit is set. This holds of `-0.0` and of half the NaNs too.
    pub open spec fn spec_is_sign_negative(self) -> bool {
        self.bits >= SIGN_BIT
    }

    /// The pattern without its sign bit. Among numbers that are not NaN, a
    /// larger magnitude is a larger absolute value.
    pub open spec fn spec_magnitude(self) -> u32 {
        if self.bits >= SIGN_BIT {
            (self.bits - SIGN_BIT) as u32
        } else {
            self.bits
        }
    }

    /// `self` is no number: its magnitude lies above that of infinity.
    pub open spec fn spec_is_nan(self) -> bool {
        self.spec_magnitude() > INFINITY_BITS
    }

    /// `self` is positive or negative infinity.
    pub open spec fn spec_is_infinite(self) -> bool {
        self.spec_magnitude() == INFINITY_BITS
    }

    /// `self` is `0.0` or `-0.0`.
    pub open spec fn spec_is_zero(self) -> bool {
        self.spec_magnitude() == 0
    }

    /// The place of a number on the number line: the signed magnitude. Both
    /// zeros have rank 0, the infinities have the two extreme ranks. Numbers
    /// that are not NaN compare as their ranks do.
    pub open spec fn rank(self) -> int {
        if self.spec_is_sign_negative() {
            -(self.spec_magnitude() as int)
        } else {
            self.spec_magnitude() as int
        }
    }

    /// `self < rhs`. False as soon as one side is NaN.
    pub open spec fn spec_lt(self, rhs: Scalar) -> bool {
        !self.spec_is_nan() && !rhs.spec_is_nan() && self.rank() < rhs.rank()
    }

    /// `self <= rhs`. False as soon as one side is NaN.
    pub open spec fn spec_le(self, rhs: Scalar) -> bool {
        !self.spec_is_nan() && !rhs.spec_is_nan() && self.rank() <= rhs.rank()
    }

    /// `self > rhs`. False as soon as one side is NaN.
    pub open spec fn spec_gt(self, rhs: Scalar) -> bool {
        rhs.spec_lt(self)
    }

    /// `self >= rhs`. False as soon as one side is NaN.
    pub open spec fn spec_ge(self, rhs: Scalar) -> bool {
        rhs.spec_le(self)
    }

    /// `self == rhs` as numbers: the two zeros are equal, a NaN equals nothing.
    pub open spec fn spec_same(self, rhs: Scalar) -> bool {
        !self.spec_is_nan() && !rhs.spec_is_nan() && self.rank() == rhs.rank()
    }

    /// `self` lies strictly between `low` and `high`.
    pub open spec fn spec_is_inside(self, low: Scalar, high: Scalar) -> bool {
        low.spec_lt(self) && self.spec_lt(high)
    }

    /// The number with the opposite sign bit.
    pub open spec fn spec_neg(self) -> Scalar {
        if self.bits >= SIGN_BIT {
            Scalar { bits: (self.bits - SIGN_BIT) as u32 }
        } else {
            Scalar { bits: (self.bits + SIGN_BIT) as u32 }
        }
    }

    /// `self` brought into `[0, 1]`. A NaN stays as it is.
    pub open spec fn spec_clamp_unit(self) -> Scalar {
        if self.spec_gt(Self::spec_one()) {
            Self::spec_one()
        } else if self.spec_lt(Self::spec_zero()) {
            Self::spec_zero()
        } else {
            self
        }
    }

    /// `0.0`.
    pub open spec fn spec_zero() -> Scalar {
        Scalar { bits: 0 }
    }

    /// `1.0`.
    pub open spec fn spec_one() -> Scalar {
        Scalar { bits: ONE_BITS }
    }

    /// Positive infinity.
    pub open spec fn spec_infinity() -> Scalar {
        Scalar { bits: INFINITY_BITS }
    }

    /// The number with this pattern.
    pub fn from_bits(bits: u32) -> (r: Scalar)
        ensures
            r.bits == bits,
    {
        Scalar { bits }
    }

    /// The pattern of `self`.
    pub fn to_bits(self) -> (r: u32)
        ensures
            r == self.bits,
    {
        self.bits
    }

    /// `0.0`.
    #[verifier::when_used_as_spec(spec_zero)]
    pub fn zero() -> (r: Scalar)
        ensures
            r == Self::spec_zero(),
    {
        Scalar { bits: 0 }
    }

    /// `1.0`.
    #[verifier::when_used_as_spec(spec_one)]
    pub fn one() -> (r: Scalar)
        ensures
            r == Self::spec_one(),
    {
        Scalar { bits: ONE_BITS }
    }

    /// Positive infinity.
    #[verifier::when_used_as_spec(spec_infinity)]
    pub fn infinity() -> (r: Scalar)
        ensures
            r == Self::spec_infinity(),
    {
        Scalar { bits: INFINITY_BITS }
    }

    /// Whether the sign bit is set, as it is for `-0.0` too.
    #[verifier::when_used_as_spec(spec_is_sign_negative)]
    pub fn is_sign_negative(self) -> (r: bool)
        ensures
            r == self.spec_is_sign_negative(),
    {
        self.bits >= SIGN_BIT
    }

    /// The pattern without its sign bit: the pattern of the absolute value.
    #[verifier::when_used_as_spec(spec_magnitude)]
    pub fn magnitude(self) -> (r: u32)
        ensures
            r == self.spec_magnitude(),
            r < SIGN_BIT,
    {
        if self.bits >= SIGN_BIT {
            self.bits - SIGN_BIT
        } else {
            self.bits
        }
    }

    /// Whether `self` is no number.
    #[verifier::when_used_as_spec(spec_is_nan)]
    pub fn is_nan(self) -> (r: bool)
        ensures
            r == self.spec_is_nan(),
    {
        self.magnitude() > INFINITY_BITS
    }

    /// Whether `self` is positive or negative infinity.
    #[verifier::when_used_as_spec(spec_is_infinite)]
    pub fn is_infinite(self) -> (r: bool)
        ensures
            r == self.spec_is_infinite(),
    {
        self.magnitude() == INFINITY_BITS
    }

    /// Whether `self` is `0.0` or `-0.0`.
    #[verifier::when_used_as_spec(spec_is_zero)]
    pub fn is_zero(self) -> (r: bool)
        ensures
            r == self.spec_is_zero(),
    {
        self.magnitude() == 0
    }

    /// The rank of `self`, in a type that holds every rank.
    fn signed_magnitude(self) -> (r: i64)
        ensures
            r == self.rank(),
    {
        let m: i64 = self.magnitude() as i64;
        if self.bits >= SIGN_BIT {
            -m
        } else {
            m
        }
    }

    /// `self < rhs`, as the numbers compare: false if either is NaN.
    #[verifier::when_used_as_spec(spec_lt)]
    pub fn lt(self, rhs: Scalar) -> (r: bool)
        ensures
            r == self.spec_lt(rhs),
    {
        !self.is_nan() && !rhs.is_nan() && self.signed_magnitude() < rhs.signed_magnitude()
    }

    /// `self <= rhs`, as the numbers compare: false if either is NaN.
    #[verifier::when_used_as_spec(spec_le)]
    pub fn le(self, rhs: Scalar) -> (r: bool)
        ensures
            r == self.spec_le(rhs),
    {
        !self.is_nan() && !rhs.is_nan() && self.signed_magnitude() <= rhs.signed_magnitude()
    }

    /// `self > rhs`, as the numbers compare: false if either is NaN.
    #[verifier::when_used_as_spec(spec_gt)]
    pub fn gt(self, rhs: Scalar) -> (r: bool)
        ensures
            r == self.spec_gt(rhs),
    {
        rhs.lt(self)
    }

    /// `self >= rhs`, as the numbers compare: false if either is NaN.
    #[verifier::when_used_as_spec(spec_ge)]
    pub fn ge(self, rhs: Scalar) -> (r: bool)
        ensures
            r == self.spec_ge(rhs),
    {
        rhs.le(self)
    }

    /// `self == rhs`, as the numbers compare: `0.0` and `-0.0` are the same
    /// number, and a NaN is the same as nothing, not even as itself.
    #[verifier::when_used_as_spec(spec_same)]
    pub fn same(self, rhs: Scalar) -> (r: bool)
        ensures
            r == self.spec_same(rhs),
    {
        !self.is_nan() && !rhs.is_nan() && self.signed_magnitude() == rhs.signed_magnitude()
    }

    /// Whether `self` lies in the open interval from `low` to `high`: a number
    /// equal to either end is outside.
    #[verifier::when_used_as_spec(spec_is_inside)]
    pub fn is_inside(self, low: Scalar, high: Scalar) -> (r: bool)
        ensures
            r == self.spec_is_inside(low, high),
    {
        low.lt(self) && self.lt(high)
    }

    /// `-self`: only the sign bit changes, for zeros, infinities and NaNs too.
    #[verifier::when_used_as_spec(spec_neg)]
    pub fn neg(self) -> (r: Scalar)
        ensures
            r == self.spec_neg(),
            r.magnitude() == self.magnitude(),
            r.is_sign_negative() == !self.is_sign_negative(),
    {
        if self.bits >= SIGN_BIT {
            Scalar { bits: self.bits - SIGN_BIT }
        } else {
            Scalar { bits: self.bits + SIGN_BIT }
        }
    }

    /// Brings `self` into `[0, 1]`: a number above one becomes `1.0`, a number
    /// below zero becomes `0.0`, anything else (a NaN too) is returned as it is.
    #[verifier::when_used_as_spec(spec_clamp_unit)]
    pub fn clamp_unit(self) -> (r: Scalar)
        ensures
            r == self.spec_clamp_unit(),
            !self.is_nan() ==> Scalar::zero().le(r) && r.le(Scalar::one()),
    {
        if self.gt(Scalar::one()) {
            Scalar::one()
        } else if self.lt(Scalar::zero()) {
            Scalar::zero()
        } else {
            self
        }
    }
}

impl Default for Scalar {
    /// `0.0`.
    fn default() -> (r: Scalar)
        ensures
            r.bits == 0,
    {
        Scalar { bits: 0 }
    }
}

/// Of two numbers that are not NaN, exactly one of `a < b`, `a == b`, `a > b`
/// holds.
pub proof fn law_trichotomy(a: Scalar, b: Scalar)
    requires
        !a.is_nan(),
        !b.is_nan(),
    ensures
        a.lt(b) || a.same(b) || a.gt(b),
        !(a.lt(b) && a.same(b)),
        !(a.lt(b) && a.gt(b)),
        !(a.same(b) && a.gt(b)),
        a.le(b) == (a.lt(b) || a.same(b)),
{
}

/// A NaN is neither below, nor equal to, nor above anything, itself included.
pub proof fn law_nan_is_unordered(a: Scalar, b: Scalar)
    requires
        a.is_nan() || b.is_nan(),
    ensures
        !a.lt(b),
        !a.le(b),
        !a.gt(b),
        !a.ge(b),
        !a.same(b),
{
}

/// `<` and `<=` chain, in every mixture of the two.
pub proof fn law_order_is_transitive(a: Scalar, b: Scalar, c: Scalar)
    ensures
        a.lt(b) && b.lt(c) ==> a.lt(c),
        a.le(b) && b.lt(c) ==> a.lt(c),
        a.lt(b) && b.le(c) ==> a.lt(c),
        a.le(b) && b.le(c) ==> a.le(c),
{
}

/// Negation turns the order round and undoes itself.
pub proof fn law_neg_reverses_order(a: Scalar, b: Scalar)
    ensures
        a.neg().neg() == a,
        a.neg().is_nan() == a.is_nan(),
        a.lt(b) == b.neg().lt(a.neg()),
        a.le(b) == b.neg().le(a.neg()),
        a.same(b) == a.neg().same(b.neg()),
{
}

} // verus!
