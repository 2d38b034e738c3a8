//! Directions in space.
use crate::scalar::Scalar;
use vstd::prelude::*;

verus! {

/// The pattern of `1e-8`, the bound under which a component counts as zero.
pub const NEAR_ZERO_BITS: u64 = 0x3E45_798E_E230_8C3A;

/// Represents a vector in the 3D space.
#[derive(Clone, Copy, Debug)]
pub struct Vector {
    pub x: Scalar,
    pub y: Scalar,
    pub z: Scalar,
}

impl Vector {
    /// The vector with every component negated.
    pub open spec fn spec_neg(self) -> Vector {
        Vector { x: self.x.neg(), y: self.y.neg(), z: self.z.neg() }
    }

    /// Whether every component is, in absolute value, below `1e-8`.
    pub open spec fn spec_near_zero(self) -> bool {
        let bound = Scalar { bits: NEAR_ZERO_BITS };
        self.x.abs().lt(bound) && self.y.abs().lt(bound) && self.z.abs().lt(bound)
    }

    pub fn new(x: Scalar, y: Scalar, z: Scalar) -> (v: Vector)
        ensures
            v == (Vector { x, y, z }),
    {
        Vector { x, y, z }
    }

    /// The vector of the same length that points the opposite way.
    #[verifier::when_used_as_spec(spec_neg)]
    pub fn neg(self) -> (v: Vector)
        ensures
            v == self.spec_neg(),
    {
        Vector { x: self.x.neg(), y: self.y.neg(), z: self.z.neg() }
    }

    /// Whether the vector is too short to serve as a direction.
    #[verifier::when_used_as_spec(spec_near_zero)]
    pub fn near_zero(self) -> (r: bool)
        ensures
            r == self.spec_near_zero(),
    {
        let bound = Scalar::from_bits(NEAR_ZERO_BITS);
        self.x.abs().lt(bound) && self.y.abs().lt(bound) && self.z.abs().lt(bound)
    }
}

} // verus!
