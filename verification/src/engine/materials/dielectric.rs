//! Clear surfaces, which let a ray through or mirror it.
use crate::engine::hittables::hittable::HitRecord;
use crate::engine::materials::material::ScatterResult;
use crate::engine::ray::Ray;
use crate::scalar::Scalar;
use crate::vectors::color::Color;
use crate::vectors::vector::Vector;
use vstd::prelude::*;

verus! {

/// What the optics of a clear surface give for one hit. With `ratio` the
/// ratio of the refractive indices, `cos_theta` the smaller of one and the
/// dot product of the reversed unit direction of the ray with the normal,
/// and `sin_theta` the root of `1 - cos_theta²`:
///
/// - `bend` is `ratio · sin_theta`, the sine that the law of refraction
///   asks of the ray beyond the surface;
/// - `reflectance` is the share of light that is mirrored, by Schlick:
///   `r0 + (1 - r0)·(1 - cos_theta)⁵` with `r0 = ((1 - ratio)/(1 + ratio))²`;
/// - `reflected` is the direction of the mirrored ray;
/// - `refracted` is the direction of the ray that passes through.
#[derive(Clone, Copy, Debug)]
pub struct Optics {
    pub bend: Scalar,
    pub reflectance: Scalar,
    pub reflected: Vector,
    pub refracted: Vector,
}

/// A clear material such as glass or water.
#[derive(Clone, Copy, Debug)]
pub struct Dielectric {
    pub refractive_index: Scalar,
}

impl Dielectric {
    /// The refractive index is a number above zero.
    pub open spec fn wf(self) -> bool {
        Scalar::zero().lt(self.refractive_index)
    }

    /// The ratio of the refractive indices on the way of the ray: the
    /// reciprocal of the index where the ray enters the material, the
    /// index itself where it leaves.
    pub open spec fn spec_refraction_ratio(self, front_face: bool, reciprocal: Scalar) -> Scalar {
        if front_face {
            reciprocal
        } else {
            self.refractive_index
        }
    }

    /// Whether the ray is mirrored: always where no ray can pass through,
    /// which is where `bend` is above one, and else where the reflectance
    /// is above the random draw.
    pub open spec fn spec_reflects(optics: Optics, draw: Scalar) -> bool {
        Scalar::one().lt(optics.bend) || draw.lt(optics.reflectance)
    }

    /// What a hit scatters into: the mirrored ray or the ray that passes
    /// through, and all of the light along it.
    pub open spec fn spec_scatter_toward<M>(
        self,
        record: HitRecord<M>,
        optics: Optics,
        draw: Scalar,
    ) -> Option<ScatterResult> {
        Some(
            ScatterResult {
                scattered: Ray {
                    origin: record.point,
                    direction: if Self::spec_reflects(optics, draw) {
                        optics.reflected
                    } else {
                        optics.refracted
                    },
                },
                attenuation: Color::ones(),
            },
        )
    }

    pub fn new(refractive_index: Scalar) -> (material: Dielectric)
        ensures
            material.refractive_index == refractive_index,
    {
        Dielectric { refractive_index }
    }

    /// The ratio of the refractive indices for a hit on the given face,
    /// with `reciprocal` one over the refractive index.
    pub fn refraction_ratio(&self, front_face: bool, reciprocal: Scalar) -> (ratio: Scalar)
        ensures
            ratio == self.spec_refraction_ratio(front_face, reciprocal),
    {
        if front_face {
            reciprocal
        } else {
            self.refractive_index
        }
    }

    /// Decides between mirroring and passing through, for a random `draw`
    /// between zero and one.
    pub fn reflects(optics: &Optics, draw: Scalar) -> (mirrored: bool)
        ensures
            mirrored == Self::spec_reflects(*optics, draw),
    {
        Scalar::one().lt(optics.bend) || draw.lt(optics.reflectance)
    }

    /// Scatters the ray from the hit point. The ray always goes on, and
    /// nothing of its light is lost.
    pub fn scatter_toward<M>(&self, record: &HitRecord<M>, optics: &Optics, draw: Scalar) -> (outcome:
        Option<ScatterResult>)
        ensures
            outcome == self.spec_scatter_toward(*record, *optics, draw),
            outcome matches Some(result) && result.attenuation == Color::ones()
                && result.attenuation.in_unit_range(),
    {
        let direction = if Self::reflects(optics, draw) {
            optics.reflected
        } else {
            optics.refracted
        };
        Some(
            ScatterResult { scattered: Ray::new(record.point, direction), attenuation: Color::ones() },
        )
    }
}

/// Where a ray can pass through, the draw alone decides: the ray is
/// mirrored exactly when the reflectance is above the draw.
pub proof fn lemma_draw_decides(optics: Optics, draw: Scalar)
    requires
        !Scalar::one().lt(optics.bend),
    ensures
        Dielectric::spec_reflects(optics, draw) == draw.lt(optics.reflectance),
{
}

/// Where no ray can pass through, the ray is mirrored whatever the draw.
pub proof fn lemma_total_reflection(optics: Optics, draw: Scalar)
    requires
        Scalar::one().lt(optics.bend),
    ensures
        Dielectric::spec_reflects(optics, draw),
{
}

} // verus!
