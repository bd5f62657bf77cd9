//! The first guess of the fast inverse square root.
//!
//! The fast square root of `x` is `x * y`, where `y` approximates `1 / sqrt(x)`.
//! The approximation starts from a guess read off the bit pattern of `x` and
//! is refined by three Newton steps `y * (1.5 - 0.5 * x * y * y)`. The steps
//! round and are the caller's; the guess is integer work and is made here.
use vstd::prelude::*;
use crate::scalar::{Scalar, INFINITY_BITS};

verus! {

/// The constant that the halved pattern is taken from.
pub const MAGIC: u32 = 0x5f37_59df;

/// The number of Newton steps that refine the guess.
pub const NEWTON_STEPS: u8 = 3;

/// What `seed` answers: the pattern `MAGIC - bits / 2`, taken modulo 2^32.
pub open spec fn spec_seed(x: Scalar) -> Scalar {
    if x.bits / 2 <= MAGIC {
        Scalar { bits: (MAGIC - x.bits / 2) as u32 }
    } else {
        Scalar { bits: (MAGIC + 0x1_0000_0000 - x.bits / 2) as u32 }
    }
}

/// The first guess at `1 / sqrt(x)`: the constant minus half the pattern of
/// `x`. The difference wraps round for the patterns above twice the constant,
/// which are negative numbers.
#[verifier::when_used_as_spec(spec_seed)]
pub fn seed(x: Scalar) -> (r: Scalar)
    ensures
        r == spec_seed(x),
{
    let half: u32 = x.bits / 2;
    if half <= MAGIC {
        Scalar { bits: MAGIC - half }
    } else {
        Scalar { bits: MAGIC + (u32::MAX - half) + 1 }
    }
}

/// For a number that is not negative and not NaN, infinity included, the guess
/// is a positive normal number: the Newton steps start from a finite value.
pub proof fn law_seed_is_positive(x: Scalar)
    requires
        x.bits <= INFINITY_BITS,
    ensures
        seed(x).bits == MAGIC - x.bits / 2,
        0x0080_0000 <= seed(x).bits < INFINITY_BITS,
        Scalar::zero().lt(seed(x)),
        seed(x).lt(Scalar::infinity()),
{
}

/// The guess falls as the number grows, as the inverse square root does.
pub proof fn law_seed_is_antitone(x: Scalar, y: Scalar)
    requires
        x.bits <= INFINITY_BITS,
        y.bits <= INFINITY_BITS,
        x.le(y),
    ensures
        seed(y).le(seed(x)),
{
}

} // verus!
