//! Surface materials whose construction involves no arithmetic: the ideal
//! diffuse surface and the pulsed emitter. Their colours are `glam`
//! vectors, which the library carries without looking inside.

use glam::Vec3;

use vstd::prelude::*;

verus! {

/// `glam::Vec3`, a colour or direction, opaque to the library.
#[verifier::external_type_specification]
#[verifier::external_body]
pub struct ExVec3(glam::Vec3);

/// Ideal diffuse surface: cosine-weighted scattering tinted by `albedo`.
pub struct Lambertian {
    pub albedo: Vec3,
}

impl Lambertian {
    pub fn new(albedo: Vec3) -> (r: Lambertian)
        ensures
            r.albedo == albedo,
    {
        Lambertian { albedo }
    }
}

/// A pulsed light source: absorbs every incoming ray and emits `intensity`
/// at the peak of the pulse; the transient integrator applies the pulse's
/// time profile.
pub struct DiffuseLight {
    pub intensity: Vec3,
}

impl DiffuseLight {
    pub fn new(intensity: Vec3) -> (r: DiffuseLight)
        ensures
            r.intensity == intensity,
    {
        DiffuseLight { intensity }
    }
}

} // verus!
