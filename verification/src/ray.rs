//! Rays: an origin and a direction.
use vstd::prelude::*;
use crate::vec::Vec3;

verus! {

/// The half line `a + t * b`. The direction `b` need not have unit length.
#[derive(Clone, Copy, Debug)]
pub struct Ray {
    pub a: Vec3,
    pub b: Vec3,
}

impl Ray {
    /// The ray from `origin` along `direction`.
    pub fn new(origin: Vec3, direction: Vec3) -> (r: Ray)
        ensures
            r.a == origin,
            r.b == direction,
    {
        Ray { a: origin, b: direction }
    }

    /// The point where the ray starts.
    pub fn origin(&self) -> (r: Vec3)
        ensures
            r == self.a,
    {
        self.a
    }

    /// The direction in which the ray goes.
    pub fn direction(&self) -> (r: Vec3)
        ensures
            r == self.b,
    {
        self.b
    }
}

} // verus!
