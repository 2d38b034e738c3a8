//! Matt surfaces.
use crate::engine::hittables::hittable::HitRecord;
use crate::engine::materials::material::ScatterResult;
use crate::engine::ray::Ray;
use crate::vectors::color::Color;
use crate::vectors::vector::Vector;
use vstd::prelude::*;

verus! {

/// A matt surface: it scatters every ray, into a direction spread round the
/// normal, and tints it by its albedo.
#[derive(Clone, Copy, Debug)]
pub struct Lambertian {
    pub albedo: Color,
}

impl Lambertian {
    /// Every channel of the albedo lies between zero and one.
    pub open spec fn wf(self) -> bool {
        self.albedo.in_unit_range()
    }

    /// The direction in which the ray goes on: `wanted`, unless that is too
    /// short to be a direction, in which case the normal takes its place.
    pub open spec fn direction(normal: Vector, wanted: Vector) -> Vector {
        if wanted.near_zero() {
            normal
        } else {
            wanted
        }
    }

    /// What a hit scatters into, given `wanted`, the sum of the record's
    /// normal and a random vector of length one.
    pub open spec fn spec_scatter_toward<M>(self, record: HitRecord<M>, wanted: Vector) -> Option<
        ScatterResult,
    > {
        Some(
            ScatterResult {
                scattered: Ray {
                    origin: record.point,
                    direction: Self::direction(record.normal, wanted),
                },
                attenuation: self.albedo,
            },
        )
    }

    pub fn new(albedo: Color) -> (material: Lambertian)
        ensures
            material.albedo == albedo,
    {
        Lambertian { albedo }
    }

    /// Scatters the ray from the hit point towards `wanted`, the sum of the
    /// record's normal and a random vector of length one. The ray always
    /// goes on, and its attenuation is the albedo.
    pub fn scatter_toward<M>(&self, record: &HitRecord<M>, wanted: Vector) -> (outcome: Option<
        ScatterResult,
    >)
        ensures
            outcome == self.spec_scatter_toward(*record, wanted),
            outcome matches Some(result) && result.attenuation == self.albedo,
            self.wf() ==> outcome->0.attenuation.in_unit_range(),
    {
        let direction = if wanted.near_zero() {
            record.normal
        } else {
            wanted
        };
        Some(ScatterResult { scattered: Ray::new(record.point, direction), attenuation: self.albedo })
    }
}

} // verus!
