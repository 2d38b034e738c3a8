//! Mirroring surfaces.
use crate::engine::hittables::hittable::HitRecord;
use crate::engine::materials::material::ScatterResult;
use crate::engine::ray::Ray;
use crate::scalar::Scalar;
use crate::vectors::color::Color;
use crate::vectors::vector::Vector;
use vstd::prelude::*;

verus! {

/// A metal: it mirrors the ray about the normal, blurs the mirrored
/// direction by `fuzz` and tints the ray by its albedo.
#[derive(Clone, Copy, Debug)]
pub struct Metal {
    pub albedo: Color,
    pub fuzz: Scalar,
}

impl Metal {
    /// Every channel of the albedo, and the fuzz, lie between zero and one.
    pub open spec fn wf(self) -> bool {
        &&& self.albedo.in_unit_range()
        &&& Scalar::zero().le(self.fuzz)
        &&& self.fuzz.le(Scalar::one())
    }

    /// What a hit scatters into, given the direction `wanted` and `facing`,
    /// the dot product of `wanted` with the record's normal: the ray goes
    /// on along `wanted` where `facing` is above zero, and is absorbed
    /// otherwise.
    pub open spec fn spec_scatter_toward<M>(
        self,
        record: HitRecord<M>,
        wanted: Vector,
        facing: Scalar,
    ) -> Option<ScatterResult> {
        if Scalar::zero().lt(facing) {
            Some(
                ScatterResult {
                    scattered: Ray { origin: record.point, direction: wanted },
                    attenuation: self.albedo,
                },
            )
        } else {
            None
        }
    }

    pub fn new(albedo: Color, fuzz: Scalar) -> (material: Metal)
        ensures
            material.albedo == albedo,
            material.fuzz == fuzz,
    {
        Metal { albedo, fuzz }
    }

    /// Scatters the ray from the hit point along `wanted`: the incoming
    /// direction `d` mirrored about the normal `n`, which is
    /// `d - 2·(d·n)·n`, plus `fuzz` times a random point of the unit ball.
    /// `facing` is the dot product of `wanted` with the normal. A direction
    /// that does not leave the surface is absorbed.
    pub fn scatter_toward<M>(&self, record: &HitRecord<M>, wanted: Vector, facing: Scalar) -> (outcome:
        Option<ScatterResult>)
        ensures
            outcome == self.spec_scatter_toward(*record, wanted, facing),
            outcome is Some <==> Scalar::zero().lt(facing),
            outcome matches Some(result) ==> result.scattered.direction == wanted
                && result.attenuation == self.albedo,
            self.wf() ==> (outcome matches Some(result) ==> result.attenuation.in_unit_range()),
    {
        if Scalar::zero().lt(facing) {
            Some(
                ScatterResult { scattered: Ray::new(record.point, wanted), attenuation: self.albedo },
            )
        } else {
            None
        }
    }
}

} // verus!
