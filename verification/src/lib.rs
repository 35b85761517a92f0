//! A small offline ray tracer over fixed-point arithmetic.
//!
//! The engine computes, for every output pixel, the color seen along a
//! camera ray cast through that pixel: direct Lambertian illumination,
//! hard shadows, and a bounded number of specular reflection bounces.
//! All geometry and color arithmetic is carried out on [`fx::Fx`], a
//! saturating fixed-point scalar with sixteen fractional bits, so every
//! stage of the pipeline has an exact, machine-checked contract.

pub mod color;
pub mod fx;
pub mod geom;
pub mod render;
pub mod scene;
pub mod shade;
pub mod texture;
pub mod vec3;
