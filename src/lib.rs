//! The verified part of a Monte Carlo ray tracer for scenes of spheres: the
//! bounce budget that ends every light path, the choice of diffuse sampler,
//! and the plain-text PPM encoding of the rendered pixels. The floating-point
//! geometry and optics are left to the program that links this library.

pub mod integrator;
pub mod ppm;
pub mod scattering;
