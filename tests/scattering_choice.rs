use raytracer::scattering::{DiffuseScattering, DirectionSampler};

#[test]
fn lambertian_draws_unit_vectors() {
    assert_eq!(
        DiffuseScattering::Lambertian.sampler(),
        DirectionSampler::UnitVector
    );
}

#[test]
fn approximation_draws_inside_the_sphere() {
    assert_eq!(
        DiffuseScattering::LambertianApproximation.sampler(),
        DirectionSampler::InUnitSphere
    );
}

#[test]
fn hemispherical_draws_inside_the_sphere() {
    assert_eq!(
        DiffuseScattering::Hemispherical.sampler(),
        DirectionSampler::InUnitSphere
    );
}
