//! Hit tests: one sphere, and the closest hit of a whole scene.
//!
//! A ray `a + t * b` meets a sphere where a quadratic in `t` vanishes. Solving
//! it rounds and is the caller's work; choosing among its roots is done here.
use vstd::prelude::*;
use crate::material::Materials;
use crate::scalar::Scalar;
use crate::vec::Vec3;

verus! {

/// A hit: where along the ray (`t`), at which point (`p`), with which surface
/// normal, on which material.
#[derive(Clone, Copy, Debug)]
pub struct HitRecord {
    pub t: Scalar,
    pub p: Vec3,
    pub normal: Vec3,
    pub material: Materials,
}

/// A sphere. A negative radius turns its normals inward, which makes the
/// inner wall of a hollow sphere.
#[derive(Clone, Copy, Debug)]
pub struct Sphere {
    pub radius: Scalar,
    pub center: Vec3,
    pub material: Materials,
}

/// The quadratic of one ray and one sphere, solved: its discriminant, the root
/// with the minus sign (`near`) and the root with the plus sign (`far`).
#[derive(Clone, Copy, Debug)]
pub struct Roots {
    pub discriminant: Scalar,
    pub near: Scalar,
    pub far: Scalar,
}

/// The closest hit of a scene: which object, and where along the ray.
#[derive(Clone, Copy, Debug)]
pub struct Closest {
    pub index: usize,
    pub t: Scalar,
}

/// What `crosses` answers.
pub open spec fn spec_crosses(discriminant: Scalar) -> bool {
    discriminant.spec_gt(Scalar::spec_zero())
}

/// Whether the line of the ray crosses the sphere: whether the discriminant is
/// positive. A line that only touches the sphere does not cross it.
#[verifier::when_used_as_spec(spec_crosses)]
pub fn crosses(discriminant: Scalar) -> (r: bool)
    ensures
        r == spec_crosses(discriminant),
{
    discriminant.gt(Scalar::zero())
}

impl Roots {
    /// The parameter at which the ray counts as hitting the sphere, if any.
    /// There is none unless the discriminant is positive. Then the near root
    /// is taken if it lies strictly between `tmin` and `tmax`, else the far
    /// root if that one does.
    pub open spec fn spec_hit(self, tmin: Scalar, tmax: Scalar) -> Option<Scalar> {
        if !spec_crosses(self.discriminant) {
            None
        } else if self.near.spec_is_inside(tmin, tmax) {
            Some(self.near)
        } else if self.far.spec_is_inside(tmin, tmax) {
            Some(self.far)
        } else {
            None
        }
    }

    /// A solved quadratic.
    pub fn new(discriminant: Scalar, near: Scalar, far: Scalar) -> (r: Roots)
        ensures
            r.discriminant == discriminant,
            r.near == near,
            r.far == far,
    {
        Roots { discriminant, near, far }
    }

    /// A quadratic that was not solved because its discriminant is not
    /// positive. It hits nothing, so its roots are never read; they are zero.
    pub fn unsolved(discriminant: Scalar) -> (r: Roots)
        ensures
            r.discriminant == discriminant,
            r.near == Scalar::zero(),
            r.far == Scalar::zero(),
            !crosses(discriminant) ==> forall|tmin: Scalar, tmax: Scalar|
                #[trigger] r.hit(tmin, tmax) is None,
    {
        Roots { discriminant, near: Scalar::zero(), far: Scalar::zero() }
    }

    /// The hit test of one sphere. A root equal to `tmin` or to `tmax` is no
    /// hit: the interval is open at both ends.
    #[verifier::when_used_as_spec(spec_hit)]
    pub fn hit(self, tmin: Scalar, tmax: Scalar) -> (r: Option<Scalar>)
        ensures
            r == self.spec_hit(tmin, tmax),
            (r matches Some(t) ==> t.is_inside(tmin, tmax)),
            (r matches Some(t) ==> t == self.near || t == self.far),
    {
        if !crosses(self.discriminant) {
            None
        } else if self.near.is_inside(tmin, tmax) {
            Some(self.near)
        } else if self.far.is_inside(tmin, tmax) {
            Some(self.far)
        } else {
            None
        }
    }
}

/// The upper bound that the next object of a scan is tested against: the best
/// parameter found so far, or `tmax` while nothing was hit.
pub open spec fn bound_after(best: Option<Closest>, tmax: Scalar) -> Scalar {
    match best {
        Some(c) => c.t,
        None => tmax,
    }
}

/// The closest hit among `roots`, found by going through them in order. Each
/// object is tested against the interval from `tmin` to the best parameter
/// found before it, so it replaces the best only by a strictly smaller one.
pub open spec fn scan(roots: Seq<Roots>, tmin: Scalar, tmax: Scalar) -> Option<Closest>
    decreases roots.len(),
{
    if roots.len() == 0 {
        None
    } else {
        let before = scan(roots.drop_last(), tmin, tmax);
        match roots.last().spec_hit(tmin, bound_after(before, tmax)) {
            Some(t) => Some(Closest { index: (roots.len() - 1) as usize, t }),
            None => before,
        }
    }
}

/// Shrinking the upper bound of one object's hit test never makes its hit
/// later: whatever it finds below `bound` is at or before what it finds below
/// `tmax`, and if it finds nothing below `bound`, what it finds below `tmax` is
/// not below `bound`.
pub proof fn law_shrunk_bound(r: Roots, tmin: Scalar, bound: Scalar, tmax: Scalar)
    requires
        bound == tmax || bound.is_inside(tmin, tmax),
    ensures
        (r.hit(tmin, bound) matches Some(t) ==> r.hit(tmin, tmax) matches Some(u) && t.le(u)
            && t.is_inside(tmin, tmax)),
        (r.hit(tmin, bound) is None ==> (r.hit(tmin, tmax) matches Some(u) ==> !u.lt(bound))),
{
}

/// The closest-hit law. What the scan returns lies strictly inside the
/// interval and is a root of the object it names; no object has a hit of its
/// own in the interval before it, and none that comes earlier in the scene has
/// one at the same parameter. The scan finds nothing exactly when no object
/// has a hit in the interval.
pub proof fn law_closest_hit(roots: Seq<Roots>, tmin: Scalar, tmax: Scalar)
    requires
        roots.len() <= usize::MAX,
    ensures
        (scan(roots, tmin, tmax) matches Some(c) ==> {
            &&& c.index < roots.len()
            &&& c.t.is_inside(tmin, tmax)
            &&& crosses(roots[c.index as int].discriminant)
            &&& (c.t == roots[c.index as int].near || c.t == roots[c.index as int].far)
            &&& forall|j: int|
                0 <= j < c.index ==> (#[trigger] roots[j].hit(tmin, tmax) matches Some(u)
                    ==> c.t.lt(u))
        }),
        forall|j: int|
            0 <= j < roots.len() ==> (#[trigger] roots[j].hit(tmin, tmax) matches Some(u) ==> (
            scan(roots, tmin, tmax) matches Some(c) && c.t.le(u))),
        scan(roots, tmin, tmax) is None <==> forall|j: int|
            0 <= j < roots.len() ==> #[trigger] roots[j].hit(tmin, tmax) is None,
    decreases roots.len(),
{
    if roots.len() > 0 {
        let earlier = roots.drop_last();
        let bound = bound_after(scan(earlier, tmin, tmax), tmax);
        law_closest_hit(earlier, tmin, tmax);
        law_shrunk_bound(roots.last(), tmin, bound, tmax);
        assert forall|j: int| 0 <= j < earlier.len() implies earlier[j] == roots[j] by {}
    }
}

/// Where no object has its far root before its near root, what the scan
/// returns is the named object's own hit in the whole interval: the closest
/// hit is the least of the objects' own hits.
pub proof fn law_closest_is_an_own_hit(roots: Seq<Roots>, tmin: Scalar, tmax: Scalar)
    requires
        roots.len() <= usize::MAX,
        forall|j: int| 0 <= j < roots.len() ==> !(#[trigger] roots[j]).far.lt(roots[j].near),
    ensures
        (scan(roots, tmin, tmax) matches Some(c) ==> roots[c.index as int].hit(tmin, tmax)
            == Some(c.t)),
    decreases roots.len(),
{
    if roots.len() > 0 {
        let earlier = roots.drop_last();
        assert forall|j: int| 0 <= j < earlier.len() implies earlier[j] == roots[j] by {}
        law_closest_is_an_own_hit(earlier, tmin, tmax);
        law_closest_hit(earlier, tmin, tmax);
    }
}

/// The closest hit of a scene in the open interval from `tmin` to `tmax`.
/// `roots` holds, object by object and in the order of the scene, the solved
/// quadratic of the ray with that object.
pub fn closest_hit(roots: &Vec<Roots>, tmin: Scalar, tmax: Scalar) -> (r: Option<Closest>)
    ensures
        r == scan(roots@, tmin, tmax),
        (r matches Some(c) ==> {
            &&& c.index < roots.len()
            &&& c.t.is_inside(tmin, tmax)
            &&& crosses(roots[c.index as int].discriminant)
            &&& (c.t == roots[c.index as int].near || c.t == roots[c.index as int].far)
            &&& forall|j: int|
                0 <= j < c.index ==> (#[trigger] roots[j].hit(tmin, tmax) matches Some(u)
                    ==> c.t.lt(u))
        }),
        forall|j: int|
            0 <= j < roots.len() ==> (#[trigger] roots[j].hit(tmin, tmax) matches Some(u) ==> (
            r matches Some(c) && c.t.le(u))),
        r is None <==> forall|j: int|
            0 <= j < roots.len() ==> #[trigger] roots[j].hit(tmin, tmax) is None,
{
    let mut best: Option<Closest> = None;
    let mut closest_so_far = tmax;
    let mut i: usize = 0;
    while i < roots.len()
        invariant
            i <= roots.len(),
            best == scan(roots@.take(i as int), tmin, tmax),
            closest_so_far == bound_after(best, tmax),
        decreases roots.len() - i,
    {
        assert(roots@.take(i + 1).drop_last() == roots@.take(i as int));
        if let Some(t) = roots[i].hit(tmin, closest_so_far) {
            closest_so_far = t;
            best = Some(Closest { index: i, t });
        }
        i += 1;
    }
    proof {
        assert(roots@.take(i as int) == roots@);
        law_closest_hit(roots@, tmin, tmax);
    }
    best
}

} // verus!
