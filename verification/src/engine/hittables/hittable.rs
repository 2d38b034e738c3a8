//! The record of one intersection and the interface of everything that can
//! be intersected.
use crate::engine::ray::Ray;
use crate::scalar::Scalar;
use crate::vectors::point::Point;
use crate::vectors::vector::Vector;
use vstd::prelude::*;

verus! {

/// Where and how a ray met a surface.
///
/// `normal` is the surface normal turned against the incoming ray, and
/// `front_face` tells whether the ray came from outside the surface.
/// `material` is the handle of the material that governs the surface.
#[derive(Debug)]
pub struct HitRecord<M> {
    pub point: Point,
    pub normal: Vector,
    pub t: Scalar,
    pub front_face: bool,
    pub material: M,
}

/// Whether the parameter `t` lies in the query window: above `t_min` and
/// at or below `t_max`.
pub open spec fn in_window(t: Scalar, t_min: Scalar, t_max: Scalar) -> bool {
    t_min.lt(t) && t.le(t_max)
}

/// What is left of a hit once the upper end of the window is lowered to
/// `bound`: the hit itself if it is still inside, nothing otherwise.
pub open spec fn narrowed<M>(hit: Option<HitRecord<M>>, bound: Scalar) -> Option<HitRecord<M>> {
    match hit {
        Some(record) => if record.t.le(bound) {
            hit
        } else {
            None
        },
        None => None,
    }
}

impl<M> HitRecord<M> {
    /// The record of a ray meeting a surface at parameter `t`, given the
    /// normal that points out of the surface and `facing`, the dot product
    /// of the ray's direction with that normal.
    ///
    /// The ray comes from outside when `facing` is below zero. The stored
    /// normal is the outward normal then, and its negation otherwise.
    pub open spec fn spec_oriented(
        point: Point,
        outward_normal: Vector,
        t: Scalar,
        facing: Scalar,
        material: M,
    ) -> HitRecord<M> {
        let front_face = facing.lt(Scalar::zero());
        HitRecord {
            point,
            normal: if front_face {
                outward_normal
            } else {
                outward_normal.neg()
            },
            t,
            front_face,
            material,
        }
    }

    /// The dot product of the ray's direction with the stored normal, given
    /// `facing`, its dot product with the outward normal.
    pub open spec fn stored_facing(facing: Scalar) -> Scalar {
        if facing.lt(Scalar::zero()) {
            facing
        } else {
            facing.neg()
        }
    }

    /// Builds the record and turns the normal against the ray.
    #[verifier::when_used_as_spec(spec_oriented)]
    pub fn oriented(
        point: Point,
        outward_normal: Vector,
        t: Scalar,
        facing: Scalar,
        material: M,
    ) -> (record: HitRecord<M>)
        ensures
            record == Self::spec_oriented(point, outward_normal, t, facing, material),
    {
        let front_face = facing.lt(Scalar::zero());
        let normal = if front_face {
            outward_normal
        } else {
            outward_normal.neg()
        };
        HitRecord { point, normal, t, front_face, material }
    }
}

/// The stored normal never points along the ray: the dot product of the
/// ray's direction with it, which is `facing` or the negation of `facing`,
/// is not above zero.
pub proof fn lemma_normal_against_ray<M>(facing: Scalar)
    ensures
        !Scalar::zero().lt(HitRecord::<M>::stored_facing(facing)),
{
}

/// Anything that can be tested for intersection with a ray inside a window
/// of ray parameters.
///
/// An implementation answers for its [`hit`](Hittable::hit) by the three
/// obligations below: the answer is a function of the query, it lies in the
/// window, and lowering the upper end of the window never brings up another
/// hit.
pub trait Hittable {
    /// The handle by which a hit names the material of the surface.
    type Surface;

    /// The hit that a query returns.
    spec fn hit_spec(&self, ray: Ray, t_min: Scalar, t_max: Scalar) -> Option<
        HitRecord<Self::Surface>,
    >;

    /// Tests `ray` against the object. A hit is returned only with a
    /// parameter above `t_min` and at or below `t_max`.
    fn hit(&self, ray: &Ray, t_min: Scalar, t_max: Scalar) -> (hit: Option<
        HitRecord<Self::Surface>,
    >)
        ensures
            hit == self.hit_spec(*ray, t_min, t_max),
            hit matches Some(record) ==> in_window(record.t, t_min, t_max),
    ;

    /// Every hit lies in the window of its query.
    proof fn lemma_hit_in_window(&self, ray: Ray, t_min: Scalar, t_max: Scalar)
        ensures
            self.hit_spec(ray, t_min, t_max) matches Some(record) ==> in_window(
                record.t,
                t_min,
                t_max,
            ),
    ;

    /// A query with the upper end of its window lowered from `t_max` to
    /// `bound` returns the hit of the wider query if that hit is at or
    /// below `bound`, and nothing otherwise.
    proof fn lemma_hit_narrowed(&self, ray: Ray, t_min: Scalar, bound: Scalar, t_max: Scalar)
        requires
            bound.le(t_max),
        ensures
            self.hit_spec(ray, t_min, bound) == narrowed(self.hit_spec(ray, t_min, t_max), bound),
    ;
}

} // verus!
