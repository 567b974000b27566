use vstd::prelude::*;

verus! {

/// Bit pattern of positive infinity. A pattern whose magnitude is larger is a NaN.
pub const INFINITY_BITS: u64 = 0x7ff0_0000_0000_0000;

/// The sign bit: the bit pattern of negative zero.
pub const SIGN_BIT: u64 = 0x8000_0000_0000_0000;

/// A binary64 number, held by its bit pattern.
///
/// This crate does no floating-point arithmetic. It carries such numbers
/// through and orders them, and for both the bit pattern is enough: the
/// order of two numbers is read off their patterns by [`Scalar::rank`].
#[derive(Clone, Copy, Debug, PartialEq, Eq, Structural)]
pub struct Scalar {
    pub bits: u64,
}

impl Scalar {
    /// The pattern without its sign bit.
    pub open spec fn magnitude(self) -> int {
        if self.bits >= SIGN_BIT {
            self.bits - SIGN_BIT
        } else {
            self.bits as int
        }
    }

    /// The sign bit is set. This holds of negative zero and of half the NaNs too.
    pub open spec fn sign_negative(self) -> bool {
        self.bits >= SIGN_BIT
    }

    /// The pattern is no number.
    pub open spec fn nan(self) -> bool {
        self.magnitude() > INFINITY_BITS
    }

    /// The place of a number in the order of all numbers: `a < b` holds of two
    /// numbers exactly when `a.rank() < b.rank()`. Both zeros have rank 0.
    /// The rank of a NaN means nothing.
    pub open spec fn rank(self) -> int {
        if self.sign_negative() {
            -self.magnitude()
        } else {
            self.magnitude()
        }
    }

    /// `self < other`, as binary64 numbers compare: false if either is a NaN.
    pub open spec fn lt_spec(self, other: Scalar) -> bool {
        !self.nan() && !other.nan() && self.rank() < other.rank()
    }

    /// `self <= other`, as binary64 numbers compare: false if either is a NaN.
    pub open spec fn le_spec(self, other: Scalar) -> bool {
        !self.nan() && !other.nan() && self.rank() <= other.rank()
    }

    /// `self > other`, as binary64 numbers compare: false if either is a NaN.
    pub open spec fn gt_spec(self, other: Scalar) -> bool {
        other.lt_spec(self)
    }

    /// `self >= other`, as binary64 numbers compare: false if either is a NaN.
    pub open spec fn ge_spec(self, other: Scalar) -> bool {
        other.le_spec(self)
    }

    /// The smaller of two numbers, and the one that is a number if the other is
    /// none. Of two equal numbers it is `self`.
    pub open spec fn min_spec(self, other: Scalar) -> Scalar {
        if self.nan() {
            other
        } else if other.lt_spec(self) {
            other
        } else {
            self
        }
    }

    /// Positive zero.
    pub open spec fn zero_spec() -> Scalar {
        Scalar { bits: 0 }
    }

    #[verifier::when_used_as_spec(zero_spec)]
    pub fn zero() -> (z: Scalar)
        ensures
            z == Scalar::zero_spec(),
    {
        Scalar { bits: 0 }
    }

    pub fn from_bits(bits: u64) -> (s: Scalar)
        ensures
            s.bits == bits,
    {
        Scalar { bits }
    }

    pub fn to_bits(self) -> (bits: u64)
        ensures
            bits == self.bits,
    {
        self.bits
    }

    #[verifier::when_used_as_spec(nan)]
    pub fn is_nan(self) -> (b: bool)
        ensures
            b == self.nan(),
    {
        if self.bits >= SIGN_BIT {
            self.bits - SIGN_BIT > INFINITY_BITS
        } else {
            self.bits > INFINITY_BITS
        }
    }

    #[verifier::when_used_as_spec(lt_spec)]
    pub fn lt(self, other: Scalar) -> (b: bool)
        ensures
            b == self.lt_spec(other),
    {
        if self.is_nan() || other.is_nan() {
            false
        } else if self.bits >= SIGN_BIT {
            if other.bits >= SIGN_BIT {
                self.bits > other.bits
            } else {
                self.bits > SIGN_BIT || other.bits > 0
            }
        } else {
            other.bits < SIGN_BIT && self.bits < other.bits
        }
    }

    #[verifier::when_used_as_spec(le_spec)]
    pub fn le(self, other: Scalar) -> (b: bool)
        ensures
            b == self.le_spec(other),
    {
        if self.is_nan() || other.is_nan() {
            false
        } else {
            !other.lt(self)
        }
    }

    #[verifier::when_used_as_spec(gt_spec)]
    pub fn gt(self, other: Scalar) -> (b: bool)
        ensures
            b == self.gt_spec(other),
    {
        other.lt(self)
    }

    #[verifier::when_used_as_spec(ge_spec)]
    pub fn ge(self, other: Scalar) -> (b: bool)
        ensures
            b == self.ge_spec(other),
    {
        other.le(self)
    }

    #[verifier::when_used_as_spec(min_spec)]
    pub fn min(self, other: Scalar) -> (m: Scalar)
        ensures
            m == self.min_spec(other),
    {
        if self.is_nan() {
            other
        } else if other.lt(self) {
            other
        } else {
            self
        }
    }
}

/// Of two numbers one is less than the other or they are equal, and only
/// one of the three; a NaN is neither less than, equal to nor greater than
/// anything.
pub proof fn law_order_is_total(a: Scalar, b: Scalar)
    ensures
        !a.nan() && !b.nan() ==> (a.lt_spec(b) || b.lt_spec(a) || a.rank() == b.rank()),
        !(a.lt_spec(b) && b.lt_spec(a)),
        a.le_spec(b) <==> a.lt_spec(b) || (!a.nan() && !b.nan() && a.rank() == b.rank()),
        a.nan() || b.nan() ==> !a.lt_spec(b) && !a.le_spec(b) && !a.gt_spec(b) && !a.ge_spec(b),
{
}

/// What is less than a number that is less than a third is less than the
/// third.
pub proof fn law_order_is_transitive(a: Scalar, b: Scalar, c: Scalar)
    requires
        a.le_spec(b),
        b.le_spec(c),
    ensures
        a.le_spec(c),
        a.lt_spec(b) || b.lt_spec(c) ==> a.lt_spec(c),
{
}

/// Numbers without a sign bit are ordered as their bit patterns are.
pub proof fn law_positive_order_is_that_of_the_bits(a: Scalar, b: Scalar)
    requires
        a.bits <= INFINITY_BITS,
        b.bits <= INFINITY_BITS,
    ensures
        a.lt_spec(b) <==> a.bits < b.bits,
        a.le_spec(b) <==> a.bits <= b.bits,
{
}

} // verus!
