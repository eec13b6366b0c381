//! Single-precision real numbers, held by their IEEE 754 encoding.
//!
//! A [`Scalar`] is the 32-bit pattern of a binary32 number: one sign bit,
//! eight exponent bits, twenty-three fraction bits. Ordering, equality and
//! the distance in units of least precision are all functions of that pattern,
//! and this module computes them on the pattern alone.

use vstd::prelude::*;

verus! {

/// The pattern with only the sign bit set; patterns at or above it are negative.
pub const SIGN: u32 = 0x8000_0000;

/// The pattern of positive infinity; a larger magnitude is not a number.
pub const INFINITY: u32 = 0x7f80_0000;

/// How many units of least precision two numbers may lie apart and still match.
pub const ULPS: i64 = 4;

/// A real number in IEEE 754 binary32 encoding.
///
/// The derived `==` compares encodings, so it tells `0.0` from `-0.0` and
/// equates a NaN with itself; [`Scalar::same`] is the numeric equality.
#[derive(Clone, Copy, Debug, PartialEq, Eq, Structural)]
pub struct Scalar {
    pub bits: u32,
}

impl Scalar {
    /// The encoding with the sign bit cleared.
    pub open spec fn magnitude(self) -> int {
        if self.bits >= SIGN {
            self.bits - SIGN
        } else {
            self.bits as int
        }
    }

    /// Whether the sign bit is set.
    pub open spec fn is_negative(self) -> bool {
        self.bits >= SIGN
    }

    /// Whether the encoding is one of the NaNs.
    pub open spec fn is_nan(self) -> bool {
        self.magnitude() > INFINITY
    }

    /// The place of a number on the number line: for two encodings that are
    /// not NaN, the numbers compare as their ranks do. Both zeros have rank 0.
    pub open spec fn rank(self) -> int {
        if self.is_negative() {
            -self.magnitude()
        } else {
            self.magnitude()
        }
    }

    /// Numeric `<`: false as soon as either side is NaN.
    pub open spec fn spec_lt(self, other: Scalar) -> bool {
        !self.is_nan() && !other.is_nan() && self.rank() < other.rank()
    }

    /// Numeric `>`: false as soon as either side is NaN.
    pub open spec fn spec_gt(self, other: Scalar) -> bool {
        other.spec_lt(self)
    }

    /// Numeric `==`: the zeros are equal to each other, a NaN to nothing.
    pub open spec fn spec_same(self, other: Scalar) -> bool {
        !self.is_nan() && !other.is_nan() && self.rank() == other.rank()
    }

    /// The encoding read as a two's complement 32-bit integer.
    pub open spec fn signed(self) -> int {
        if self.bits >= SIGN {
            self.bits - 0x1_0000_0000
        } else {
            self.bits as int
        }
    }

    /// The signed distance from `other` in units of least precision: the
    /// difference of the two encodings as 32-bit integers, wrapped to 32 bits.
    pub open spec fn ulps_from(self, other: Scalar) -> int {
        let d = self.signed() - other.signed();
        if d > i32::MAX {
            d - 0x1_0000_0000
        } else if d < i32::MIN {
            d + 0x1_0000_0000
        } else {
            d
        }
    }

    /// Approximate equality with a margin of [`ULPS`] units of least
    /// precision and no absolute margin: the numbers are equal, or their
    /// encodings lie at most [`ULPS`] apart. The second test reads encodings,
    /// not numbers, so it also matches a NaN with an encoding next to it.
    /// (An absolute margin of zero adds nothing to equality: in IEEE 754
    /// arithmetic the difference of two numbers is zero only if they are
    /// equal.)
    pub open spec fn spec_approx_eq(self, other: Scalar) -> bool {
        self.spec_same(other) || -ULPS <= self.ulps_from(other) <= ULPS
    }

    /// The number with the given encoding.
    pub fn from_bits(bits: u32) -> (s: Scalar)
        ensures
            s.bits == bits,
    {
        Scalar { bits }
    }

    /// The encoding of the number.
    pub fn to_bits(self) -> (bits: u32)
        ensures
            bits == self.bits,
    {
        self.bits
    }

    /// Whether the encoding is one of the NaNs.
    pub fn nan(self) -> (r: bool)
        ensures
            r == self.is_nan(),
    {
        let m: u32 = if self.bits >= SIGN {
            self.bits - SIGN
        } else {
            self.bits
        };
        m > INFINITY
    }

    fn place(self) -> (r: i64)
        ensures
            r == self.rank(),
    {
        if self.bits >= SIGN {
            -((self.bits - SIGN) as i64)
        } else {
            self.bits as i64
        }
    }

    fn two_complement(self) -> (r: i64)
        ensures
            r == self.signed(),
    {
        if self.bits >= SIGN {
            self.bits as i64 - 0x1_0000_0000
        } else {
            self.bits as i64
        }
    }

    /// Numeric `<`.
    #[verifier::when_used_as_spec(spec_lt)]
    pub fn lt(self, other: Scalar) -> (r: bool)
        ensures
            r == self.spec_lt(other),
    {
        !self.nan() && !other.nan() && self.place() < other.place()
    }

    /// Numeric `>`.
    #[verifier::when_used_as_spec(spec_gt)]
    pub fn gt(self, other: Scalar) -> (r: bool)
        ensures
            r == self.spec_gt(other),
    {
        other.lt(self)
    }

    /// Numeric `==`.
    #[verifier::when_used_as_spec(spec_same)]
    pub fn same(self, other: Scalar) -> (r: bool)
        ensures
            r == self.spec_same(other),
    {
        !self.nan() && !other.nan() && self.place() == other.place()
    }

    /// Approximate equality within [`ULPS`] units of least precision.
    #[verifier::when_used_as_spec(spec_approx_eq)]
    pub fn approx_eq(self, other: Scalar) -> (r: bool)
        ensures
            r == self.spec_approx_eq(other),
    {
        if self.same(other) {
            return true;
        }
        let d: i64 = self.two_complement() - other.two_complement();
        let wrapped: i64 = if d > 0x7fff_ffff {
            d - 0x1_0000_0000
        } else if d < -0x8000_0000 {
            d + 0x1_0000_0000
        } else {
            d
        };
        -ULPS <= wrapped && wrapped <= ULPS
    }
}

/// Approximate equality does not depend on the order of its arguments.
pub proof fn approx_eq_symmetric(a: Scalar, b: Scalar)
    ensures
        a.approx_eq(b) == b.approx_eq(a),
{
}

/// Every encoding, a NaN too, approximately equals itself.
pub proof fn approx_eq_reflexive(a: Scalar)
    ensures
        a.approx_eq(a),
{
}

/// Numbers that are equal are approximately equal.
pub proof fn same_implies_approx_eq(a: Scalar, b: Scalar)
    requires
        a.same(b),
    ensures
        a.approx_eq(b),
{
}

/// `<` is a strict order: nothing is below itself, and it is transitive.
pub proof fn lt_strict_order(a: Scalar, b: Scalar, c: Scalar)
    ensures
        !a.lt(a),
        a.lt(b) ==> !b.lt(a),
        a.lt(b) && b.lt(c) ==> a.lt(c),
{
}

/// Of two numbers exactly one of `<`, `==`, `>` holds; with a NaN none does.
pub proof fn lt_same_gt_exclusive(a: Scalar, b: Scalar)
    ensures
        !a.is_nan() && !b.is_nan() ==> (a.lt(b) || a.same(b) || a.gt(b)),
        a.is_nan() || b.is_nan() ==> !a.lt(b) && !a.same(b) && !a.gt(b),
        !(a.lt(b) && a.same(b)),
        !(a.lt(b) && a.gt(b)),
        !(a.same(b) && a.gt(b)),
{
}

} // verus!
