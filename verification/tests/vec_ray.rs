use raytracer::ray::Ray;
use raytracer::scalar::Scalar;
use raytracer::vec::Vec3;

fn s(x: f32) -> Scalar {
    Scalar::from_bits(x.to_bits())
}

fn bits(u: Vec3) -> [u32; 3] {
    [u.x.to_bits(), u.y.to_bits(), u.z.to_bits()]
}

#[test]
fn vec3_new_keeps_its_components() {
    let u: Vec3 = Vec3::new(s(1.0), s(-2.0), s(0.5));
    assert_eq!(bits(u), [1.0f32.to_bits(), (-2.0f32).to_bits(), 0.5f32.to_bits()]);
}

#[test]
fn vec3_default_is_zero() {
    assert_eq!(bits(Vec3::default()), [0, 0, 0]);
}

#[test]
fn vec3_splat_repeats_the_value() {
    assert_eq!(bits(Vec3::splat(s(0.7))), [0.7f32.to_bits(); 3]);
}

#[test]
fn vec3_neg_negates_each_component() {
    let u: Vec3 = Vec3::new(s(1.0), s(-2.0), s(0.0));
    assert_eq!(bits(u.neg()), [(-1.0f32).to_bits(), 2.0f32.to_bits(), (-0.0f32).to_bits()]);
    assert_eq!(bits(u.neg().neg()), bits(u));
}

#[test]
fn vec3_neg_keeps_the_payload_of_a_nan() {
    let u: Vec3 = Vec3::splat(Scalar::from_bits(0x7fc0_0001));
    assert_eq!(bits(u.neg()), [0xffc0_0001; 3]);
}

#[test]
fn ray_gives_back_origin_and_direction() {
    let a: Vec3 = Vec3::new(s(1.0), s(2.0), s(3.0));
    let b: Vec3 = Vec3::new(s(0.0), s(0.0), s(-4.0));
    let ray: Ray = Ray::new(a, b);
    assert_eq!(bits(ray.origin()), bits(a));
    assert_eq!(bits(ray.direction()), bits(b));
    let literal: Ray = Ray { a, b };
    assert_eq!(bits(literal.origin()), bits(ray.a));
    assert_eq!(bits(literal.direction()), bits(ray.b));
}
