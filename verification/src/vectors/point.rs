//! Positions in space.
use crate::scalar::Scalar;
use vstd::prelude::*;

verus! {

/// Represents a position in the 3D space.
#[derive(Clone, Copy, Debug)]
pub struct Point {
    pub x: Scalar,
    pub y: Scalar,
    pub z: Scalar,
}

impl Point {
    pub fn new(x: Scalar, y: Scalar, z: Scalar) -> (p: Point)
        ensures
            p == (Point { x, y, z }),
    {
        Point { x, y, z }
    }
}

} // verus!
