//! The decision kernel of a path tracer for scenes of spheres.
//!
//! Numbers are single-precision and are held by their bit patterns
//! ([`scalar::Scalar`]). What the renderer decides (which root of a sphere
//! counts as a hit, which object of a scene is hit first, whether a material
//! scatters or absorbs, when a path ends) is decided here, on those patterns.
//! Arithmetic that rounds is done by the caller, which hands its results in.
pub mod fsqrt;
pub mod hitable;
pub mod image;
pub mod material;
pub mod ppm;
pub mod ray;
pub mod scalar;
pub mod scene;
pub mod transport;
pub mod value;
pub mod vec;
