use vstd::prelude::*;

verus! {

/// Smallest encoding with the sign bit set.
pub const SIGN_BIT: u64 = 0x8000_0000_0000_0000;

/// Encoding of positive infinity; every larger magnitude encodes a NaN.
pub const INFINITY_MAGNITUDE: u64 = 0x7FF0_0000_0000_0000;

/// A double-precision number, held by its IEEE 754 binary64 encoding.
///
/// The comparisons below are those of IEEE 754: a NaN is unordered, `-0` equals `+0`, and
/// every other value is ordered as its sign-magnitude reading of the encoding.
#[derive(Clone, Copy, Debug, PartialEq, Eq, Structural)]
pub struct Binary64 {
    pub bits: u64,
}

/// Encoding of `+0`.
pub const ZERO_BITS: u64 = 0;

/// Encoding of `1`.
pub const ONE_BITS: u64 = 0x3FF0_0000_0000_0000;

/// Encoding of `100`.
pub const HUNDRED_BITS: u64 = 0x4059_0000_0000_0000;

/// Encoding of `360`.
pub const FULL_TURN_BITS: u64 = 0x4076_8000_0000_0000;

/// Encoding of the largest finite value.
pub const LARGEST_BITS: u64 = 0x7FEF_FFFF_FFFF_FFFF;

impl Binary64 {
    /// The exponent and significand fields, read as one integer.
    pub open spec fn magnitude(self) -> int {
        if self.bits >= SIGN_BIT {
            self.bits - SIGN_BIT
        } else {
            self.bits as int
        }
    }

    pub open spec fn negative(self) -> bool {
        self.bits >= SIGN_BIT
    }

    pub open spec fn nan(self) -> bool {
        self.magnitude() > INFINITY_MAGNITUDE
    }

    /// Position on the number line: two values that are not NaN compare as their ordinals.
    pub open spec fn ordinal(self) -> int {
        if self.negative() {
            -self.magnitude()
        } else {
            self.magnitude()
        }
    }

    /// IEEE `<`.
    pub open spec fn less(self, other: Binary64) -> bool {
        !self.nan() && !other.nan() && self.ordinal() < other.ordinal()
    }

    /// IEEE `<=`.
    pub open spec fn less_eq(self, other: Binary64) -> bool {
        !self.nan() && !other.nan() && self.ordinal() <= other.ordinal()
    }

    /// `lo <= self && self <= hi`.
    pub open spec fn within(self, lo: Binary64, hi: Binary64) -> bool {
        lo.less_eq(self) && self.less_eq(hi)
    }

    pub fn from_bits(bits: u64) -> (r: Binary64)
        ensures
            r == (Binary64 { bits }),
    {
        Binary64 { bits }
    }

    pub fn is_nan(self) -> (r: bool)
        ensures
            r == self.nan(),
    {
        let magnitude: u64 = if self.bits >= SIGN_BIT {
            self.bits - SIGN_BIT
        } else {
            self.bits
        };
        magnitude > INFINITY_MAGNITUDE
    }

    /// The ordinal of a value that is not NaN, which always fits in an `i64`.
    fn ordinal_of(self) -> (r: i64)
        ensures
            r == self.ordinal(),
    {
        if self.bits >= SIGN_BIT {
            let magnitude: u64 = self.bits - SIGN_BIT;
            -(magnitude as i64)
        } else {
            self.bits as i64
        }
    }

    pub fn lt(self, other: Binary64) -> (r: bool)
        ensures
            r == self.less(other),
    {
        !self.is_nan() && !other.is_nan() && self.ordinal_of() < other.ordinal_of()
    }

    pub fn le(self, other: Binary64) -> (r: bool)
        ensures
            r == self.less_eq(other),
    {
        !self.is_nan() && !other.is_nan() && self.ordinal_of() <= other.ordinal_of()
    }

    pub fn is_within(self, lo: Binary64, hi: Binary64) -> (r: bool)
        ensures
            r == self.within(lo, hi),
    {
        lo.le(self) && self.le(hi)
    }
}

} // verus!
