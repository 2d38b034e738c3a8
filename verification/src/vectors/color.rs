//! Colours and attenuations.
use crate::scalar::Scalar;
use vstd::prelude::*;

verus! {

/// Color struct represents an RGB (Red, Green, Blue) trio. Each color is somewhere
/// between 0 - 1.
#[derive(Clone, Copy, Debug)]
pub struct Color {
    pub red: Scalar,
    pub green: Scalar,
    pub blue: Scalar,
}

impl Color {
    /// Whether every channel lies between zero and one, both included.
    pub open spec fn in_unit_range(self) -> bool {
        &&& Scalar::zero().le(self.red) && self.red.le(Scalar::one())
        &&& Scalar::zero().le(self.green) && self.green.le(Scalar::one())
        &&& Scalar::zero().le(self.blue) && self.blue.le(Scalar::one())
    }

    /// Black: every channel zero.
    pub open spec fn spec_zeroes() -> Color {
        Color { red: Scalar::zero(), green: Scalar::zero(), blue: Scalar::zero() }
    }

    /// White: every channel one.
    pub open spec fn spec_ones() -> Color {
        Color { red: Scalar::one(), green: Scalar::one(), blue: Scalar::one() }
    }

    pub fn new(red: Scalar, green: Scalar, blue: Scalar) -> (c: Color)
        ensures
            c == (Color { red, green, blue }),
    {
        Color { red, green, blue }
    }

    /// Generate a color with all elements equal to 0
    #[verifier::when_used_as_spec(spec_zeroes)]
    pub fn zeroes() -> (c: Color)
        ensures
            c == Color::spec_zeroes(),
            c.in_unit_range(),
    {
        Color::new(Scalar::zero(), Scalar::zero(), Scalar::zero())
    }

    /// Generate a color with all elements equal to 1
    #[verifier::when_used_as_spec(spec_ones)]
    pub fn ones() -> (c: Color)
        ensures
            c == Color::spec_ones(),
            c.in_unit_range(),
    {
        Color::new(Scalar::one(), Scalar::one(), Scalar::one())
    }
}

} // verus!
