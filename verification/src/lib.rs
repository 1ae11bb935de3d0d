//! Verified discrete core of a Monte Carlo path tracer: material family
//! classification and scattering-path routing, discrete cumulative
//! distributions for light importance sampling, light-list construction,
//! the per-ray bounce state machine, shape topology conventions, and render
//! bookkeeping. Floating-point shading arithmetic lives outside this crate;
//! every decision it takes is handed in as a plain value.

pub mod materials;
pub mod sampling;
pub mod integrator;
pub mod topology;
pub mod texture;
pub mod lights;
pub mod render;
