//! A recursive Monte Carlo path tracer over a saturating fixed-point
//! number kernel, with spheres, three material kinds (diffuse, metallic,
//! dielectric), a thin-lens camera and a recursive color integrator.

pub mod camera;
pub mod fixed;
pub mod hittable;
pub mod laws;
pub mod material;
pub mod ray;
pub mod render;
pub mod rng;
pub mod trig;
pub mod vec3;
