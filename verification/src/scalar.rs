use vstd::prelude::*;

verus! {

/// A real number, held as the bit pattern of a double-precision binary
/// floating-point value: one sign bit, eleven exponent bits, fifty-two
/// fraction bits.
///
/// Arithmetic on scalars is left to callers. The library only carries scalars
/// around and compares them, which this representation allows with integer
/// operations alone.
#[derive(Clone, Copy, Debug, PartialEq, Eq, Structural)]
pub struct Scalar {
    pub bits: u64,
}

pub const SIGN_BIT: u64 = 0x8000_0000_0000_0000;

pub const MAGNITUDE_MASK: u64 = 0x7fff_ffff_ffff_ffff;

pub const INFINITY_BITS: u64 = 0x7ff0_0000_0000_0000;

impl Scalar {
    /// The bit pattern with the sign bit cleared.
    pub open spec fn magnitude(self) -> u64 {
        self.bits & MAGNITUDE_MASK
    }

    pub open spec fn is_negative(self) -> bool {
        self.bits & SIGN_BIT != 0
    }

    /// Whether the pattern encodes no number at all.
    pub open spec fn is_nan(self) -> bool {
        self.magnitude() > INFINITY_BITS
    }

    /// An integer that orders numbers as their values do: for two patterns
    /// that both encode numbers, the one with the smaller key is the smaller
    /// number, and equal keys mean equal numbers (both zeros have key 0).
    pub open spec fn key(self) -> int {
        if self.is_negative() {
            -(self.magnitude() as int)
        } else {
            self.magnitude() as int
        }
    }

    /// `self <= other` as numbers. False when either side is not a number.
    pub open spec fn le(self, other: Scalar) -> bool {
        !self.is_nan() && !other.is_nan() && self.key() <= other.key()
    }

    /// `self == other` as numbers. False when either side is not a number.
    pub open spec fn same(self, other: Scalar) -> bool {
        !self.is_nan() && !other.is_nan() && self.key() == other.key()
    }

    pub fn from_bits(bits: u64) -> (r: Scalar)
        ensures
            r.bits == bits,
    {
        Scalar { bits }
    }

    pub fn to_bits(self) -> (bits: u64)
        ensures
            bits == self.bits,
    {
        self.bits
    }

    pub fn not_a_number(self) -> (r: bool)
        ensures
            r == self.is_nan(),
    {
        (self.bits & MAGNITUDE_MASK) > INFINITY_BITS
    }

    /// Decides `self <= other`.
    pub fn precedes(self, other: Scalar) -> (r: bool)
        ensures
            r == self.le(other),
    {
        let a: u64 = self.bits & MAGNITUDE_MASK;
        let b: u64 = other.bits & MAGNITUDE_MASK;
        if a > INFINITY_BITS || b > INFINITY_BITS {
            return false;
        }
        let a_negative: bool = (self.bits & SIGN_BIT) != 0;
        let b_negative: bool = (other.bits & SIGN_BIT) != 0;
        if a_negative {
            if b_negative {
                b <= a
            } else {
                true
            }
        } else {
            if b_negative {
                a == 0 && b == 0
            } else {
                a <= b
            }
        }
    }

    /// Decides `self == other` as numbers.
    pub fn equals(self, other: Scalar) -> (r: bool)
        ensures
            r == self.same(other),
    {
        self.precedes(other) && other.precedes(self)
    }
}

/// Ordering of scalars is reflexive on numbers, transitive and total on numbers.
pub proof fn lemma_scalar_order(a: Scalar, b: Scalar, c: Scalar)
    ensures
        !a.is_nan() ==> a.le(a),
        a.le(b) && b.le(c) ==> a.le(c),
        !a.is_nan() && !b.is_nan() ==> a.le(b) || b.le(a),
        a.same(b) <==> a.le(b) && b.le(a),
{
}

} // verus!
