//! What a bit pattern means as a number.
//!
//! A finite single-precision number is a whole multiple of 2^-149, the
//! smallest positive number of the format. Counting in that unit keeps the
//! meaning of a pattern in the integers.
use vstd::prelude::*;
use vstd::arithmetic::div_mod::{
    lemma_basic_div,
    lemma_div_multiples_vanish,
    lemma_div_multiples_vanish_quotient,
};
use vstd::arithmetic::power2::{
    lemma2_to64,
    lemma_pow2_adds,
    lemma_pow2_pos,
    lemma_pow2_strictly_increases,
    lemma_pow2_unfold,
    pow2,
};
use vstd::bits::{lemma_u32_shl_is_mul, lemma_u32_shr_is_div};
use crate::scalar::Scalar;

verus! {

/// The weight of the exponent field within a pattern: 2^23. It is also the
/// implicit leading bit of the significand of a normal number.
pub const HIDDEN_BIT: u32 = 0x0080_0000;

/// The exponent field of the number one. A number with a smaller field is
/// below one in absolute value.
pub const EXPONENT_OF_ONE: u32 = 127;

/// The exponent field from which on a number has no fractional part left,
/// its unit in the last place being one.
pub const EXPONENT_OF_WHOLE: u32 = 150;

/// The exponent field from which on a number is 2^32 or more.
pub const EXPONENT_PAST_U32: u32 = 159;

/// The exponent field of a magnitude: its upper eight bits.
pub open spec fn exponent_field(magnitude: u32) -> nat {
    (magnitude / HIDDEN_BIT) as nat
}

/// The significand of a magnitude: its lower 23 bits, with the implicit
/// leading bit unless the number is subnormal.
pub open spec fn significand(magnitude: u32) -> nat {
    if magnitude < HIDDEN_BIT {
        magnitude as nat
    } else {
        (HIDDEN_BIT + magnitude % HIDDEN_BIT) as nat
    }
}

/// The power of two that the significand of a magnitude is scaled by, counted
/// from 2^-149.
pub open spec fn scale(magnitude: u32) -> nat {
    if magnitude < HIDDEN_BIT {
        0
    } else {
        (exponent_field(magnitude) - 1) as nat
    }
}

/// The number that a magnitude stands for, in units of 2^-149. The magnitude
/// of infinity gets 2^277, which is above every finite number.
pub open spec fn units_of(magnitude: u32) -> nat {
    significand(magnitude) * pow2(scale(magnitude))
}

impl Scalar {
    /// The absolute value of `self` in units of 2^-149.
    pub open spec fn units(self) -> nat {
        units_of(self.spec_magnitude())
    }

    /// `self` in units of 2^-149: for a finite number, that number times 2^149.
    pub open spec fn value(self) -> int {
        if self.spec_is_sign_negative() {
            -(self.units() as int)
        } else {
            self.units() as int
        }
    }

    /// The whole part of `self`, kept within `u32`: nothing for a negative
    /// number or a NaN, the largest `u32` for a number that is too large.
    pub open spec fn spec_to_u32(self) -> u32 {
        if self.spec_is_nan() || self.spec_is_sign_negative() {
            0
        } else if self.units() / pow2(149) > u32::MAX {
            u32::MAX
        } else {
            (self.units() / pow2(149)) as u32
        }
    }

    /// Converts as a cast to `u32` does: the fractional part is dropped, a
    /// negative number and a NaN give 0, a number of 2^32 or more gives
    /// `u32::MAX`.
    #[verifier::when_used_as_spec(spec_to_u32)]
    pub fn to_u32(self) -> (r: u32)
        ensures
            r == self.spec_to_u32(),
    {
        if self.is_nan() || self.is_sign_negative() {
            return 0;
        }
        let exponent: u32 = self.bits / HIDDEN_BIT;
        proof {
            lemma_whole_part(self.bits);
        }
        if exponent < EXPONENT_OF_ONE {
            0
        } else if exponent >= EXPONENT_PAST_U32 {
            u32::MAX
        } else {
            let m: u32 = HIDDEN_BIT + self.bits % HIDDEN_BIT;
            if exponent >= EXPONENT_OF_WHOLE {
                let shift: u32 = exponent - EXPONENT_OF_WHOLE;
                proof {
                    lemma_small_power(shift as nat);
                    assert(m * pow2(shift as nat) <= u32::MAX) by (nonlinear_arith)
                        requires
                            m < 0x100_0000,
                            pow2(shift as nat) <= 0x100,
                    ;
                    lemma_u32_shl_is_mul(m, shift);
                }
                m << shift
            } else {
                let shift: u32 = EXPONENT_OF_WHOLE - exponent;
                proof {
                    lemma_u32_shr_is_div(m, shift);
                }
                m >> shift
            }
        }
    }
}

/// 2^n for `n` up to 8 is at most 256.
proof fn lemma_small_power(n: nat)
    requires
        n <= 8,
    ensures
        1 <= pow2(n) <= 0x100,
{
    lemma2_to64();
    lemma_pow2_pos(n);
    if n < 8 {
        lemma_pow2_strictly_increases(n, 8);
    }
}

/// The whole part of the number behind a magnitude, read off its fields.
proof fn lemma_whole_part(magnitude: u32)
    requires
        magnitude < 0x8000_0000,
    ensures
        exponent_field(magnitude) < EXPONENT_OF_ONE ==> units_of(magnitude) / pow2(149) == 0,
        exponent_field(magnitude) >= EXPONENT_PAST_U32 ==> units_of(magnitude) / pow2(149)
            > u32::MAX,
        EXPONENT_OF_WHOLE <= exponent_field(magnitude) ==> units_of(magnitude) / pow2(149)
            == significand(magnitude) * pow2((exponent_field(magnitude) - 150) as nat),
        1 <= exponent_field(magnitude) < EXPONENT_OF_WHOLE ==> units_of(magnitude) / pow2(149)
            == significand(magnitude) / pow2((150 - exponent_field(magnitude)) as nat),
{
    let e = exponent_field(magnitude);
    let m = significand(magnitude);
    let unit = pow2(149);
    lemma2_to64();
    lemma_pow2_pos(149);
    if e == 0 {
        assert(m * pow2(0) == m) by (nonlinear_arith)
            requires
                pow2(0) == 1,
        ;
        lemma_pow2_strictly_increases(24, 149);
        lemma_basic_div(m as int, unit as int);
    } else if e >= EXPONENT_OF_WHOLE {
        let up = pow2((e - 150) as nat);
        lemma_pow2_adds((e - 150) as nat, 149);
        lemma_pow2_pos((e - 150) as nat);
        assert(m * (up * unit) == unit * (m * up)) by (nonlinear_arith);
        lemma_div_multiples_vanish((m * up) as int, unit as int);
        if e >= EXPONENT_PAST_U32 {
            if e > 159 {
                lemma_pow2_strictly_increases(9, (e - 150) as nat);
            }
            assert(m * up > u32::MAX) by (nonlinear_arith)
                requires
                    m >= 0x80_0000,
                    up >= 0x200,
            ;
        }
    } else {
        let low = pow2((e - 1) as nat);
        let down = pow2((150 - e) as nat);
        lemma_pow2_adds((e - 1) as nat, (150 - e) as nat);
        lemma_pow2_pos((e - 1) as nat);
        lemma_pow2_pos((150 - e) as nat);
        assert(m * low == low * m) by (nonlinear_arith);
        lemma_div_multiples_vanish_quotient(low as int, m as int, down as int);
        if e < EXPONENT_OF_ONE {
            if e < 126 {
                lemma_pow2_strictly_increases(24, (150 - e) as nat);
            }
            lemma_basic_div(m as int, down as int);
        }
    }
}

/// A larger magnitude stands for a larger number.
pub proof fn law_units_increase(a: u32, b: u32)
    requires
        a < b,
    ensures
        units_of(a) < units_of(b),
{
    let (ma, mb) = (significand(a), significand(b));
    let (ka, kb) = (scale(a), scale(b));
    lemma_pow2_pos(ka);
    lemma_pow2_pos(kb);
    if ka == kb {
        assert(ma * pow2(ka) < mb * pow2(ka)) by (nonlinear_arith)
            requires
                ma < mb,
                pow2(ka) > 0,
        ;
    } else {
        lemma_pow2_unfold(ka + 1);
        if ka + 1 < kb {
            lemma_pow2_strictly_increases(ka + 1, kb);
        }
        assert(ma * pow2(ka) < mb * pow2(kb)) by (nonlinear_arith)
            requires
                ma < 0x100_0000,
                mb >= 0x80_0000,
                2 * pow2(ka) <= pow2(kb),
                pow2(ka) > 0,
        ;
    }
}

/// The order of the patterns is the order of the numbers: of two numbers that
/// are not NaN, one is below the other exactly when its value is the smaller,
/// and they are equal exactly when their values are.
pub proof fn law_order_is_numeric(a: Scalar, b: Scalar)
    requires
        !a.is_nan(),
        !b.is_nan(),
    ensures
        a.lt(b) <==> a.value() < b.value(),
        a.le(b) <==> a.value() <= b.value(),
        a.same(b) <==> a.value() == b.value(),
{
    let (ma, mb) = (a.magnitude(), b.magnitude());
    if ma < mb {
        law_units_increase(ma, mb);
    }
    if mb < ma {
        law_units_increase(mb, ma);
    }
    assert(units_of(0) == 0) by {
        assert(0 * pow2(0) == 0);
    }
    if ma > 0 {
        law_units_increase(0, ma);
    }
    if mb > 0 {
        law_units_increase(0, mb);
    }
}

/// The numbers that the renderer names, in units of 2^-149: zero is 0, one is
/// 2^149.
pub proof fn law_values_of_zero_and_one()
    ensures
        Scalar::zero().value() == 0,
        Scalar::one().value() == pow2(149),
        Scalar::one().to_u32() == 1,
{
    lemma2_to64();
    assert(units_of(0) == 0) by {
        assert(0 * pow2(0) == 0);
    }
    lemma_pow2_adds(23, 126);
    lemma_whole_part(crate::scalar::ONE_BITS);
    lemma_pow2_pos(149);
    vstd::arithmetic::div_mod::lemma_div_by_self(pow2(149) as int);
}

} // verus!
