//! The three materials, and what each decides when a ray meets it.
//!
//! A material answers with an attenuation and a scattered ray, or with nothing:
//! the ray is absorbed. The directions it chooses among are computed by the
//! caller; which of them leaves the surface, if any, is decided here.
use vstd::prelude::*;
use crate::hitable::HitRecord;
use crate::ray::Ray;
use crate::scalar::Scalar;
use crate::vec::Vec3;

verus! {

/// A diffuse surface.
#[derive(Clone, Copy, Debug)]
pub struct Lambertian {
    pub albedo: Vec3,
}

/// A mirror, blurred by `fuzz`.
#[derive(Clone, Copy, Debug)]
pub struct Metal {
    pub albedo: Vec3,
    pub fuzz: Scalar,
}

/// A clear medium such as glass, with its refractive index.
#[derive(Clone, Copy, Debug)]
pub struct Dielectric {
    pub ref_index: Scalar,
}

/// The closed set of materials.
#[derive(Clone, Copy, Debug)]
pub enum Materials {
    Dielectric(Dielectric),
    Lambertian(Lambertian),
    Metal(Metal),
}

/// Which side of a dielectric surface a ray comes from.
#[derive(Clone, Copy, Debug)]
pub struct Interface {
    /// The ray travels inside the medium and is about to leave it.
    pub exiting: bool,
    /// The normal that points against the ray.
    pub outward_normal: Vec3,
}

/// A refracted ray that exists, with what decides whether it is taken.
#[derive(Clone, Copy, Debug)]
pub struct Refraction {
    pub direction: Vec3,
    /// The share of light that is reflected at this angle.
    pub reflectance: Scalar,
    /// A uniform draw from `[0, 1)`.
    pub draw: Scalar,
}

impl Lambertian {
    /// Always scatters, into `direction`, and attenuates by the albedo.
    pub fn scatter(&self, hit_record: &HitRecord, direction: Vec3) -> (r: Option<(Vec3, Ray)>)
        ensures
            r == Some((self.albedo, (Ray { a: hit_record.p, b: direction }))),
    {
        Some((self.albedo, Ray { a: hit_record.p, b: direction }))
    }
}

impl Metal {
    /// The fuzz lies in `[0, 1]`.
    pub open spec fn is_clamped(self) -> bool {
        Scalar::zero().le(self.fuzz) && self.fuzz.le(Scalar::one())
    }

    /// What `scatter` answers.
    pub open spec fn spec_scatter(self, p: Vec3, direction: Vec3, facing: Scalar) -> Option<
        (Vec3, Ray),
    > {
        if facing.gt(Scalar::zero()) {
            Some((self.albedo, Ray { a: p, b: direction }))
        } else {
            None
        }
    }

    /// A metal whose fuzz is `fuzz` brought into `[0, 1]`.
    pub fn new(albedo: Vec3, fuzz: Scalar) -> (r: Metal)
        ensures
            r.albedo == albedo,
            r.fuzz == fuzz.clamp_unit(),
            !fuzz.is_nan() ==> r.is_clamped(),
    {
        Metal { albedo, fuzz: fuzz.clamp_unit() }
    }

    /// Scatters into `direction`, the blurred mirror image of the incoming
    /// direction, if that leaves the surface: if `facing`, its dot product
    /// with the normal, is positive. Otherwise the ray is absorbed.
    pub fn scatter(&self, hit_record: &HitRecord, direction: Vec3, facing: Scalar) -> (r: Option<
        (Vec3, Ray),
    >)
        ensures
            r == self.spec_scatter(hit_record.p, direction, facing),
            r is Some <==> facing.gt(Scalar::zero()),
    {
        if facing.gt(Scalar::zero()) {
            Some((self.albedo, Ray { a: hit_record.p, b: direction }))
        } else {
            None
        }
    }
}

impl Dielectric {
    /// What `orient` answers.
    pub open spec fn spec_orient(facing: Scalar, normal: Vec3) -> Interface {
        if facing.gt(Scalar::zero()) {
            Interface { exiting: true, outward_normal: normal.neg() }
        } else {
            Interface { exiting: false, outward_normal: normal }
        }
    }

    /// The direction that `scatter` takes.
    pub open spec fn spec_choose(reflected: Vec3, refraction: Option<Refraction>) -> Vec3 {
        match refraction {
            Some(f) => if f.draw.lt(f.reflectance) {
                reflected
            } else {
                f.direction
            },
            None => reflected,
        }
    }

    /// Tells from `facing`, the dot product of the ray's direction with the
    /// surface normal, on which side of the surface the ray is. A positive
    /// product means that the ray leaves the medium; the outward normal is
    /// then the opposite of `normal`.
    pub fn orient(facing: Scalar, normal: Vec3) -> (r: Interface)
        ensures
            r == Self::spec_orient(facing, normal),
            r.exiting == facing.gt(Scalar::zero()),
    {
        if facing.gt(Scalar::zero()) {
            Interface { exiting: true, outward_normal: normal.neg() }
        } else {
            Interface { exiting: false, outward_normal: normal }
        }
    }

    /// Always scatters, and attenuates nothing. Without a refracted ray (total
    /// internal reflection) the ray is reflected. With one, it is reflected if
    /// the draw falls below the reflectance, and refracted otherwise.
    pub fn scatter(
        &self,
        hit_record: &HitRecord,
        reflected: Vec3,
        refraction: Option<Refraction>,
    ) -> (r: Option<(Vec3, Ray)>)
        ensures
            r == Some(
                (
                    Vec3::splat(Scalar::one()),
                    (Ray { a: hit_record.p, b: Self::spec_choose(reflected, refraction) }),
                ),
            ),
    {
        let direction = match refraction {
            Some(f) => if f.draw.lt(f.reflectance) {
                reflected
            } else {
                f.direction
            },
            None => reflected,
        };
        Some((Vec3::splat(Scalar::one()), Ray { a: hit_record.p, b: direction }))
    }
}

/// Whether a refracted ray exists: whether the discriminant of Snell's law is
/// positive. If it is not, all light is reflected.
pub fn refracts(discriminant: Scalar) -> (r: bool)
    ensures
        r == discriminant.gt(Scalar::zero()),
{
    discriminant.gt(Scalar::zero())
}

/// Whether a point with this squared length lies inside the unit ball, so that
/// rejection sampling keeps it.
pub fn in_unit_ball(squared_length: Scalar) -> (r: bool)
    ensures
        r == squared_length.lt(Scalar::one()),
{
    squared_length.lt(Scalar::one())
}

/// A metal absorbs the ray exactly when the direction it would scatter into
/// does not leave the surface. This is stated of numbers: for a product that
/// is NaN the ray is absorbed too.
pub proof fn law_metal_absorbs(metal: Metal, p: Vec3, direction: Vec3, facing: Scalar)
    requires
        !facing.is_nan(),
    ensures
        metal.spec_scatter(p, direction, facing) is None <==> facing.le(Scalar::zero()),
{
}

} // verus!
