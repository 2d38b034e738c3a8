//! Spheres, and which of the two places where a ray pierces one counts as
//! the hit.
use crate::engine::hittables::hittable::{in_window, narrowed, HitRecord};
use crate::scalar::Scalar;
use crate::vectors::point::Point;
use crate::vectors::vector::Vector;
use vstd::prelude::*;

verus! {

/// One root of the equation of a ray and a sphere, with the surface there:
/// the ray parameter `t`, the point of the ray at `t`, the normal that
/// points out of the sphere at that point (the point minus the centre,
/// over the radius), and `facing`, the dot product of the ray's direction
/// with that normal.
#[derive(Clone, Copy, Debug)]
pub struct Crossing {
    pub t: Scalar,
    pub point: Point,
    pub outward_normal: Vector,
    pub facing: Scalar,
}

/// The solved equation of a ray and a sphere. With `oc` the ray's origin
/// minus the centre, `a` the squared length of the direction, `half_b` the
/// dot product of the direction with `oc` and `c` the squared length of
/// `oc` minus the squared radius, the discriminant is `half_b² - a·c`, and
/// the roots are `(-half_b - √discriminant) / a`, the near one, and
/// `(-half_b + √discriminant) / a`, the far one.
///
/// Where the discriminant is below zero there are no roots, and the two
/// crossings hold whatever the arithmetic left in them.
#[derive(Clone, Copy, Debug)]
pub struct Quadratic {
    pub discriminant: Scalar,
    pub near: Crossing,
    pub far: Crossing,
}

impl Quadratic {
    /// The far root is not below the near one.
    pub open spec fn ordered(self) -> bool {
        !self.far.t.lt(self.near.t)
    }

    /// The ray touches the sphere in one point: the discriminant is zero
    /// and the two roots are the same number.
    pub open spec fn tangent(self) -> bool {
        self.discriminant.rank() == 0 && self.near.t.rank() == self.far.t.rank()
    }
}

/// A sphere: its centre, its radius and the handle of its material.
#[derive(Debug)]
pub struct Sphere<M> {
    pub center: Point,
    pub radius: Scalar,
    pub material: M,
}

impl<M: Copy> Sphere<M> {
    /// The radius is a number above zero.
    pub open spec fn wf(self) -> bool {
        Scalar::zero().lt(self.radius)
    }

    /// The record of the ray meeting this sphere at `crossing`.
    pub open spec fn record_at(self, crossing: Crossing) -> HitRecord<M> {
        HitRecord::oriented(
            crossing.point,
            crossing.outward_normal,
            crossing.t,
            crossing.facing,
            self.material,
        )
    }

    /// The hit of a ray whose equation with this sphere has been solved:
    /// none where the discriminant is below zero; else the near crossing if
    /// its root lies in the window; else the far crossing if its root does;
    /// else none.
    pub open spec fn spec_hit_from(self, solved: Quadratic, t_min: Scalar, t_max: Scalar) -> Option<
        HitRecord<M>,
    > {
        if solved.discriminant.lt(Scalar::zero()) {
            None
        } else if in_window(solved.near.t, t_min, t_max) {
            Some(self.record_at(solved.near))
        } else if in_window(solved.far.t, t_min, t_max) {
            Some(self.record_at(solved.far))
        } else {
            None
        }
    }

    pub fn new(center: Point, radius: Scalar, material: M) -> (sphere: Sphere<M>)
        ensures
            sphere == (Sphere { center, radius, material }),
    {
        Sphere { center, radius, material }
    }

    /// Decides the hit from the solved equation: the near root is tried
    /// first, the far root only when the near one lies outside the window.
    pub fn hit_from(&self, solved: &Quadratic, t_min: Scalar, t_max: Scalar) -> (hit: Option<
        HitRecord<M>,
    >)
        ensures
            hit == self.spec_hit_from(*solved, t_min, t_max),
            solved.discriminant.lt(Scalar::zero()) ==> hit is None,
            hit matches Some(record) ==> in_window(record.t, t_min, t_max),
    {
        if solved.discriminant.lt(Scalar::zero()) {
            return None;
        }
        let mut crossing = &solved.near;
        if !(t_min.lt(crossing.t) && crossing.t.le(t_max)) {
            crossing = &solved.far;
            if !(t_min.lt(crossing.t) && crossing.t.le(t_max)) {
                return None;
            }
        }
        Some(
            HitRecord::oriented(
                crossing.point,
                crossing.outward_normal,
                crossing.t,
                crossing.facing,
                self.material,
            ),
        )
    }
}

/// A ray that touches the sphere has one root, and the hit is at that root
/// or there is none: the far crossing is never taken in place of the near
/// one.
pub proof fn lemma_tangent_single_root<M: Copy>(
    sphere: Sphere<M>,
    solved: Quadratic,
    t_min: Scalar,
    t_max: Scalar,
)
    requires
        solved.tangent(),
    ensures
        sphere.spec_hit_from(solved, t_min, t_max) == if in_window(solved.near.t, t_min, t_max) {
            Some(sphere.record_at(solved.near))
        } else {
            None
        },
{
}

/// Lowering the upper end of the window to `bound` keeps the hit of a
/// sphere if it is at or below `bound`, and leaves no hit otherwise.
pub proof fn lemma_sphere_hit_narrowed<M: Copy>(
    sphere: Sphere<M>,
    solved: Quadratic,
    t_min: Scalar,
    bound: Scalar,
    t_max: Scalar,
)
    requires
        solved.ordered(),
        bound.le(t_max),
    ensures
        sphere.spec_hit_from(solved, t_min, bound) == narrowed(
            sphere.spec_hit_from(solved, t_min, t_max),
            bound,
        ),
{
}

} // verus!
