//! The ways a diffuse surface can pick the random part of a scattered ray.

use vstd::prelude::*;

verus! {

/// How a diffuse surface scatters light: the scattered direction is the
/// surface normal plus a random vector drawn as the method says.
#[derive(Debug, Clone, Copy, PartialEq, Eq, Structural)]
pub enum DiffuseScattering {
    /// True Lambertian reflection: a random vector of unit length.
    Lambertian,
    /// The cheaper approximation: a random vector inside the unit sphere.
    LambertianApproximation,
    /// Hemispherical scattering, drawn inside the unit sphere as well.
    Hemispherical,
}

/// The random vector that a scattering method adds to the surface normal.
#[derive(Debug, Clone, Copy, PartialEq, Eq, Structural)]
pub enum DirectionSampler {
    /// A vector of unit length, uniform over the sphere's surface.
    UnitVector,
    /// A vector uniform inside the unit ball, by rejection sampling.
    InUnitSphere,
}

/// The sampler that each method draws with.
pub open spec fn sampler_spec(method: DiffuseScattering) -> DirectionSampler {
    match method {
        DiffuseScattering::Lambertian => DirectionSampler::UnitVector,
        DiffuseScattering::LambertianApproximation => DirectionSampler::InUnitSphere,
        DiffuseScattering::Hemispherical => DirectionSampler::InUnitSphere,
    }
}

impl DiffuseScattering {
    /// The sampler that this method draws its random vector with.
    pub fn sampler(&self) -> (r: DirectionSampler)
        ensures
            r == sampler_spec(*self),
    {
        match self {
            DiffuseScattering::Lambertian => DirectionSampler::UnitVector,
            DiffuseScattering::LambertianApproximation => DirectionSampler::InUnitSphere,
            DiffuseScattering::Hemispherical => DirectionSampler::InUnitSphere,
        }
    }
}

} // verus!
