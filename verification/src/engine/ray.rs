//! Rays.
use crate::vectors::point::Point;
use crate::vectors::vector::Vector;
use vstd::prelude::*;

verus! {

/// A half-line through space: the points `origin + t * direction`, one for
/// each parameter `t`.
#[derive(Clone, Copy, Debug)]
pub struct Ray {
    pub origin: Point,
    pub direction: Vector,
}

impl Ray {
    pub fn new(origin: Point, direction: Vector) -> (ray: Ray)
        ensures
            ray == (Ray { origin, direction }),
    {
        Ray { origin, direction }
    }
}

} // verus!
