//! Binary64 numbers held by their bit patterns, with the order of the number
//! line decided on the patterns alone.
use vstd::prelude::*;

verus! {

/// The sign bit of a binary64 pattern.
pub const SIGN_BIT: u64 = 0x8000_0000_0000_0000;

/// The pattern of positive infinity: every larger magnitude is not a number.
pub const INFINITY_BITS: u64 = 0x7FF0_0000_0000_0000;

/// The pattern of the number one.
pub const ONE_BITS: u64 = 0x3FF0_0000_0000_0000;

/// A binary64 number, held as its 64-bit pattern: one sign bit above a
/// 63-bit magnitude. Magnitudes grow with the absolute value, so the order
/// of two numbers can be read off their patterns.
#[derive(Clone, Copy, Debug)]
pub struct Scalar {
    pub bits: u64,
}

impl Scalar {
    /// Whether the sign bit is set.
    pub open spec fn sign(self) -> bool {
        self.bits >= SIGN_BIT
    }

    /// The pattern without its sign bit.
    pub open spec fn magnitude(self) -> int {
        if self.bits >= SIGN_BIT {
            self.bits - SIGN_BIT
        } else {
            self.bits as int
        }
    }

    /// The place of the number on the number line, as an integer that grows
    /// with the number. Both zeros have rank 0.
    pub open spec fn rank(self) -> int {
        if self.sign() {
            -self.magnitude()
        } else {
            self.magnitude()
        }
    }

    /// Whether the pattern stands for no number at all.
    pub open spec fn spec_is_nan(self) -> bool {
        self.magnitude() > INFINITY_BITS
    }

    /// `self < other` on the number line; false when either is not a number.
    pub open spec fn spec_lt(self, other: Scalar) -> bool {
        !self.spec_is_nan() && !other.spec_is_nan() && self.rank() < other.rank()
    }

    /// `self <= other` on the number line; false when either is not a number.
    pub open spec fn spec_le(self, other: Scalar) -> bool {
        !self.spec_is_nan() && !other.spec_is_nan() && self.rank() <= other.rank()
    }

    /// The number with the opposite sign: the same magnitude, the sign bit
    /// flipped.
    pub open spec fn spec_neg(self) -> Scalar {
        if self.bits >= SIGN_BIT {
            Scalar { bits: (self.bits - SIGN_BIT) as u64 }
        } else {
            Scalar { bits: (self.bits + SIGN_BIT) as u64 }
        }
    }

    /// The absolute value: the same magnitude, the sign bit cleared.
    pub open spec fn spec_abs(self) -> Scalar {
        if self.bits >= SIGN_BIT {
            Scalar { bits: (self.bits - SIGN_BIT) as u64 }
        } else {
            self
        }
    }

    /// Positive zero.
    pub open spec fn spec_zero() -> Scalar {
        Scalar { bits: 0 }
    }

    /// The number one.
    pub open spec fn spec_one() -> Scalar {
        Scalar { bits: ONE_BITS }
    }

    /// Positive infinity.
    pub open spec fn spec_infinity() -> Scalar {
        Scalar { bits: INFINITY_BITS }
    }

    /// The scalar with the given pattern.
    pub fn from_bits(bits: u64) -> (s: Scalar)
        ensures
            s.bits == bits,
    {
        Scalar { bits }
    }

    /// The pattern of the scalar.
    pub fn to_bits(self) -> (bits: u64)
        ensures
            bits == self.bits,
    {
        self.bits
    }

    /// Positive zero.
    #[verifier::when_used_as_spec(spec_zero)]
    pub fn zero() -> (s: Scalar)
        ensures
            s == Scalar::spec_zero(),
    {
        Scalar { bits: 0 }
    }

    /// The number one.
    #[verifier::when_used_as_spec(spec_one)]
    pub fn one() -> (s: Scalar)
        ensures
            s == Scalar::spec_one(),
    {
        Scalar { bits: ONE_BITS }
    }

    /// Positive infinity.
    #[verifier::when_used_as_spec(spec_infinity)]
    pub fn infinity() -> (s: Scalar)
        ensures
            s == Scalar::spec_infinity(),
    {
        Scalar { bits: INFINITY_BITS }
    }

    /// Whether the pattern stands for no number at all.
    #[verifier::when_used_as_spec(spec_is_nan)]
    pub fn is_nan(self) -> (r: bool)
        ensures
            r == self.spec_is_nan(),
    {
        if self.bits >= SIGN_BIT {
            self.bits - SIGN_BIT > INFINITY_BITS
        } else {
            self.bits > INFINITY_BITS
        }
    }

    /// Whether `self` lies strictly below `other` on the number line.
    #[verifier::when_used_as_spec(spec_lt)]
    pub fn lt(self, other: Scalar) -> (r: bool)
        ensures
            r == self.spec_lt(other),
    {
        let a: u64 = self.bits;
        let b: u64 = other.bits;
        if self.is_nan() || other.is_nan() {
            false
        } else if a >= SIGN_BIT {
            if b >= SIGN_BIT {
                b < a
            } else {
                a > SIGN_BIT || b > 0
            }
        } else {
            b < SIGN_BIT && a < b
        }
    }

    /// Whether `self` lies at or below `other` on the number line.
    #[verifier::when_used_as_spec(spec_le)]
    pub fn le(self, other: Scalar) -> (r: bool)
        ensures
            r == self.spec_le(other),
    {
        let a: u64 = self.bits;
        let b: u64 = other.bits;
        if self.is_nan() || other.is_nan() {
            false
        } else if a >= SIGN_BIT {
            b < SIGN_BIT || b <= a
        } else if b >= SIGN_BIT {
            a == 0 && b == SIGN_BIT
        } else {
            a <= b
        }
    }

    /// The number with the opposite sign.
    #[verifier::when_used_as_spec(spec_neg)]
    pub fn neg(self) -> (s: Scalar)
        ensures
            s == self.spec_neg(),
    {
        if self.bits >= SIGN_BIT {
            Scalar { bits: self.bits - SIGN_BIT }
        } else {
            Scalar { bits: self.bits + SIGN_BIT }
        }
    }

    /// The absolute value.
    #[verifier::when_used_as_spec(spec_abs)]
    pub fn abs(self) -> (s: Scalar)
        ensures
            s == self.spec_abs(),
    {
        if self.bits >= SIGN_BIT {
            Scalar { bits: self.bits - SIGN_BIT }
        } else {
            self
        }
    }
}

/// Negation mirrors the number line: it keeps the magnitude, turns the rank
/// round and is undone by a second negation.
pub proof fn lemma_neg_mirrors(a: Scalar)
    ensures
        a.neg().magnitude() == a.magnitude(),
        a.neg().rank() == -a.rank(),
        a.neg().is_nan() == a.is_nan(),
        a.neg().neg() == a,
{
}

/// On numbers the order is total, and `<` is `<=` without equality of rank.
pub proof fn lemma_order_total(a: Scalar, b: Scalar)
    requires
        !a.is_nan(),
        !b.is_nan(),
    ensures
        a.le(b) || b.le(a),
        a.lt(b) == !b.le(a),
        a.lt(b) == (a.le(b) && a.rank() != b.rank()),
{
}

/// The order is transitive.
pub proof fn lemma_order_transitive(a: Scalar, b: Scalar, c: Scalar)
    ensures
        a.le(b) && b.le(c) ==> a.le(c),
        a.lt(b) && b.le(c) ==> a.lt(c),
        a.le(b) && b.lt(c) ==> a.lt(c),
{
}

} // verus!
