//! A physically-inspired ray tracer with a verified rendering core.
//!
//! All geometry is carried in fixed-point arithmetic: a scalar is an `i64`
//! holding a multiple of `1 / fixed::FX_ONE`, and every operation saturates at
//! `fixed::FX_HUGE`, which plays the role that the infinities play in real
//! arithmetic. On that foundation stand the vectors, rays and colors, the
//! bounding boxes with their slab test, the primitives with their
//! intersection protocol, the bounding volume hierarchy, the materials, the
//! textures, and the Monte Carlo camera loop.

pub mod camera;
pub mod color;
pub mod fixed;
pub mod fmath;
pub mod hittable;
pub mod interval;
pub mod material;
pub mod ray;
pub mod rng;
pub mod scene;
pub mod texture;
pub mod vec3;
