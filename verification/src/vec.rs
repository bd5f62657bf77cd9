//! Three-component vectors: points, directions and colours alike.
use vstd::prelude::*;
use crate::scalar::Scalar;

verus! {

/// A vector of three single-precision numbers. One type serves as point,
/// direction and colour.
#[derive(Clone, Copy, Debug)]
pub struct Vec3 {
    pub x: Scalar,
    pub y: Scalar,
    pub z: Scalar,
}

impl Vec3 {
    /// The vector with every sign bit flipped.
    pub open spec fn spec_neg(self) -> Vec3 {
        Vec3 { x: self.x.spec_neg(), y: self.y.spec_neg(), z: self.z.spec_neg() }
    }

    /// The vector whose three components are all `value`.
    pub open spec fn spec_splat(value: Scalar) -> Vec3 {
        Vec3 { x: value, y: value, z: value }
    }

    /// The vector with these components.
    pub fn new(x: Scalar, y: Scalar, z: Scalar) -> (r: Vec3)
        ensures
            r.x == x,
            r.y == y,
            r.z == z,
    {
        Vec3 { x, y, z }
    }

    /// The vector whose three components are all `value`: a grey, as a colour.
    #[verifier::when_used_as_spec(spec_splat)]
    pub fn splat(value: Scalar) -> (r: Vec3)
        ensures
            r == Self::spec_splat(value),
    {
        Vec3 { x: value, y: value, z: value }
    }

    /// `-self`, component by component. Negation never rounds, so the result
    /// is exact.
    #[verifier::when_used_as_spec(spec_neg)]
    pub fn neg(self) -> (r: Vec3)
        ensures
            r == self.spec_neg(),
    {
        Vec3 { x: self.x.neg(), y: self.y.neg(), z: self.z.neg() }
    }
}

impl Default for Vec3 {
    /// The zero vector, which is also black.
    fn default() -> (r: Vec3)
        ensures
            r == Vec3::spec_splat(Scalar::zero()),
    {
        Vec3 { x: Scalar::zero(), y: Scalar::zero(), z: Scalar::zero() }
    }
}

/// Negating a vector twice gives it back.
pub proof fn law_neg_is_involution(v: Vec3)
    ensures
        v.neg().neg() == v,
{
}

} // verus!
