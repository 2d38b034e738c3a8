//! The interface of a material.
use crate::engine::hittables::hittable::HitRecord;
use crate::engine::ray::Ray;
use crate::vectors::color::Color;
use vstd::prelude::*;

verus! {

/// A ray sent on by a surface: the ray that leaves the hit point, and the
/// share of the light along it that the surface lets through, channel by
/// channel.
#[derive(Clone, Copy, Debug)]
pub struct ScatterResult {
    pub scattered: Ray,
    pub attenuation: Color,
}

/// The scattering rule of a surface. The value that implements it is the
/// handle under which hit records name the material.
pub trait Material: Sized {
    /// Where the material draws its random numbers from.
    type Source;

    /// Whether `outcome` is among the answers that
    /// [`scatter`](Material::scatter) can give for this ray and this hit.
    spec fn may_scatter(
        &self,
        ray: Ray,
        record: HitRecord<Self>,
        outcome: Option<ScatterResult>,
    ) -> bool;

    /// Decides whether the ray goes on after the hit, and how. `None`
    /// means that the ray is absorbed.
    fn scatter(&self, ray: &Ray, record: &HitRecord<Self>, source: &mut Self::Source) -> (outcome:
        Option<ScatterResult>)
        ensures
            self.may_scatter(*ray, *record, outcome),
    ;
}

} // verus!
