//! The scene that is rendered: a ground, a field of small spheres laid out at
//! random, and three large spheres.
//!
//! Where the small spheres lie and what colours they have is drawn at random
//! by the caller. Which material a draw selects, which places are kept free,
//! and in which order the objects stand in the scene is laid down here.
use vstd::prelude::*;
use crate::hitable::Sphere;
use crate::material::{Dielectric, Lambertian, Materials, Metal};
use crate::scalar::Scalar;
use crate::vec::Vec3;

verus! {

/// The small spheres are laid out on the grid cells from this index ...
pub const GRID_FROM: i32 = -11;

/// ... up to, and without, this one, in both directions.
pub const GRID_TO: i32 = 11;

/// The pattern of `0.8`: a draw below it selects a diffuse sphere.
pub const DIFFUSE_BELOW_BITS: u32 = 0x3f4c_cccd;

/// The pattern of `0.95`: a draw below it, and not below `0.8`, selects a
/// metal sphere.
pub const METAL_BELOW_BITS: u32 = 0x3f73_3333;

/// The pattern of `0.9`: a small sphere must be farther than this from the
/// point that is kept free.
pub const CLEARANCE_BITS: u32 = 0x3f66_6666;

/// The pattern of `0.2`, the radius of a small sphere and the height of its
/// centre.
pub const SMALL_RADIUS_BITS: u32 = 0x3e4c_cccd;

/// The pattern of `1.5`, the refractive index of glass.
pub const GLASS_INDEX_BITS: u32 = 0x3fc0_0000;

/// The material of a small sphere, before its colour is drawn.
#[derive(Clone, Copy, Debug, PartialEq, Eq, Structural)]
pub enum Kind {
    Diffuse,
    Metal,
    Glass,
}

/// What `choose_kind` answers.
pub open spec fn spec_choose_kind(draw: Scalar) -> Kind {
    if draw.lt(Scalar { bits: DIFFUSE_BELOW_BITS }) {
        Kind::Diffuse
    } else if draw.lt(Scalar { bits: METAL_BELOW_BITS }) {
        Kind::Metal
    } else {
        Kind::Glass
    }
}

/// The ground: a huge diffuse grey sphere below the scene.
pub open spec fn spec_ground() -> Sphere {
    Sphere {
        radius: Scalar { bits: 0x447a_0000 },
        center: Vec3 {
            x: Scalar { bits: 0 },
            y: Scalar { bits: 0xc47a_0000 },
            z: Scalar { bits: 0 },
        },
        material: Materials::Lambertian(
            Lambertian { albedo: Vec3::spec_splat(Scalar { bits: 0x3f00_0000 }) },
        ),
    }
}

/// The large sphere of glass in the middle.
pub open spec fn spec_glass_feature() -> Sphere {
    Sphere {
        radius: Scalar::spec_one(),
        center: Vec3 { x: Scalar { bits: 0 }, y: Scalar::spec_one(), z: Scalar { bits: 0 } },
        material: Materials::Dielectric(Dielectric { ref_index: Scalar { bits: GLASS_INDEX_BITS } }),
    }
}

/// The large diffuse brown sphere behind it.
pub open spec fn spec_diffuse_feature() -> Sphere {
    Sphere {
        radius: Scalar::spec_one(),
        center: Vec3 {
            x: Scalar { bits: 0xc080_0000 },
            y: Scalar::spec_one(),
            z: Scalar { bits: 0 },
        },
        material: Materials::Lambertian(
            Lambertian {
                albedo: Vec3 {
                    x: Scalar { bits: 0x3ecc_cccd },
                    y: Scalar { bits: 0x3e4c_cccd },
                    z: Scalar { bits: 0x3dcc_cccd },
                },
            },
        ),
    }
}

/// The large polished metal sphere in front of it.
pub open spec fn spec_metal_feature() -> Sphere {
    Sphere {
        radius: Scalar::spec_one(),
        center: Vec3 {
            x: Scalar { bits: 0x4080_0000 },
            y: Scalar::spec_one(),
            z: Scalar { bits: 0 },
        },
        material: Materials::Metal(
            Metal {
                albedo: Vec3 {
                    x: Scalar { bits: 0x3f33_3333 },
                    y: Scalar { bits: 0x3f19_999a },
                    z: Scalar { bits: 0x3f00_0000 },
                },
                fuzz: Scalar { bits: 0 },
            },
        ),
    }
}

/// The scene with these small spheres: the ground first, then the small
/// spheres in their order, then the three large ones.
pub open spec fn spec_assemble(small: Seq<Sphere>) -> Seq<Sphere> {
    seq![spec_ground()] + small + seq![
        spec_glass_feature(),
        spec_diffuse_feature(),
        spec_metal_feature(),
    ]
}

/// Selects the material of a small sphere from a uniform draw: diffuse for a
/// draw below `0.8`, metal for one below `0.95`, glass for the rest.
#[verifier::when_used_as_spec(spec_choose_kind)]
pub fn choose_kind(draw: Scalar) -> (r: Kind)
    ensures
        r == spec_choose_kind(draw),
{
    if draw.lt(Scalar { bits: DIFFUSE_BELOW_BITS }) {
        Kind::Diffuse
    } else if draw.lt(Scalar { bits: METAL_BELOW_BITS }) {
        Kind::Metal
    } else {
        Kind::Glass
    }
}

/// Whether a small sphere may stand at this distance from the point that is
/// kept free for the large metal sphere: whether the distance exceeds `0.9`.
pub fn keeps_clear(distance: Scalar) -> (r: bool)
    ensures
        r == distance.gt(Scalar { bits: CLEARANCE_BITS }),
{
    distance.gt(Scalar { bits: CLEARANCE_BITS })
}

/// The point that is kept free: `(4, 0.2, 0)`.
pub fn clear_point() -> (r: Vec3)
    ensures
        r.x.bits == 0x4080_0000,
        r.y.bits == SMALL_RADIUS_BITS,
        r.z.bits == 0,
{
    Vec3 {
        x: Scalar { bits: 0x4080_0000 },
        y: Scalar { bits: SMALL_RADIUS_BITS },
        z: Scalar { bits: 0 },
    }
}

/// A small sphere: radius `0.2`, at `center`.
pub fn small_sphere(center: Vec3, material: Materials) -> (r: Sphere)
    ensures
        r.radius.bits == SMALL_RADIUS_BITS,
        r.center == center,
        r.material == material,
{
    Sphere { radius: Scalar { bits: SMALL_RADIUS_BITS }, center, material }
}

/// Glass, the one dielectric of the scene.
pub fn glass() -> (r: Materials)
    ensures
        r == Materials::Dielectric(Dielectric { ref_index: (Scalar { bits: GLASS_INDEX_BITS }) }),
{
    Materials::Dielectric(Dielectric { ref_index: Scalar { bits: GLASS_INDEX_BITS } })
}

/// The ground: a diffuse grey sphere of radius `1000`, centred at
/// `(0, -1000, 0)`.
#[verifier::when_used_as_spec(spec_ground)]
pub fn ground() -> (r: Sphere)
    ensures
        r == spec_ground(),
{
    Sphere {
        radius: Scalar { bits: 0x447a_0000 },
        center: Vec3 {
            x: Scalar { bits: 0 },
            y: Scalar { bits: 0xc47a_0000 },
            z: Scalar { bits: 0 },
        },
        material: Materials::Lambertian(
            Lambertian { albedo: Vec3::splat(Scalar { bits: 0x3f00_0000 }) },
        ),
    }
}

/// The large sphere of glass: radius `1`, centred at `(0, 1, 0)`.
#[verifier::when_used_as_spec(spec_glass_feature)]
pub fn glass_feature() -> (r: Sphere)
    ensures
        r == spec_glass_feature(),
{
    Sphere {
        radius: Scalar::one(),
        center: Vec3 { x: Scalar { bits: 0 }, y: Scalar::one(), z: Scalar { bits: 0 } },
        material: glass(),
    }
}

/// The large diffuse sphere: radius `1`, centred at `(-4, 1, 0)`, with the
/// albedo `(0.4, 0.2, 0.1)`.
#[verifier::when_used_as_spec(spec_diffuse_feature)]
pub fn diffuse_feature() -> (r: Sphere)
    ensures
        r == spec_diffuse_feature(),
{
    Sphere {
        radius: Scalar::one(),
        center: Vec3 { x: Scalar { bits: 0xc080_0000 }, y: Scalar::one(), z: Scalar { bits: 0 } },
        material: Materials::Lambertian(
            Lambertian {
                albedo: Vec3 {
                    x: Scalar { bits: 0x3ecc_cccd },
                    y: Scalar { bits: 0x3e4c_cccd },
                    z: Scalar { bits: 0x3dcc_cccd },
                },
            },
        ),
    }
}

/// The large metal sphere: radius `1`, centred at `(4, 1, 0)`, with the
/// albedo `(0.7, 0.6, 0.5)` and no fuzz.
#[verifier::when_used_as_spec(spec_metal_feature)]
pub fn metal_feature() -> (r: Sphere)
    ensures
        r == spec_metal_feature(),
{
    Sphere {
        radius: Scalar::one(),
        center: Vec3 { x: Scalar { bits: 0x4080_0000 }, y: Scalar::one(), z: Scalar { bits: 0 } },
        material: Materials::Metal(
            Metal {
                albedo: Vec3 {
                    x: Scalar { bits: 0x3f33_3333 },
                    y: Scalar { bits: 0x3f19_999a },
                    z: Scalar { bits: 0x3f00_0000 },
                },
                fuzz: Scalar { bits: 0 },
            },
        ),
    }
}

/// Puts the scene together: the ground, the small spheres as they come, and
/// the three large spheres at the end.
pub fn assemble(small: &Vec<Sphere>) -> (r: Vec<Sphere>)
    ensures
        r@ == spec_assemble(small@),
        r.len() == small.len() + 4,
{
    let mut scene: Vec<Sphere> = Vec::new();
    scene.push(ground());
    let mut i: usize = 0;
    while i < small.len()
        invariant
            i <= small.len(),
            scene@ == seq![spec_ground()] + small@.take(i as int),
        decreases small.len() - i,
    {
        scene.push(small[i]);
        i += 1;
    }
    scene.push(glass_feature());
    scene.push(diffuse_feature());
    scene.push(metal_feature());
    scene
}

} // verus!
