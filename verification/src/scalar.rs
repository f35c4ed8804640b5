//! Single-precision parameters, held and compared by their bit patterns.
use std::hash::Hash;
use std::hash::Hasher;
use vstd::prelude::*;

verus! {

/// The bit that carries the sign.
pub const SIGN_BIT: u32 = 0x8000_0000;

/// Every bit but the sign.
pub const MAGNITUDE_MASK: u32 = 0x7fff_ffff;

/// The bit pattern of positive infinity; a larger magnitude is not a number.
pub const INFINITY_BITS: u32 = 0x7f80_0000;

/// The one pattern that stands for every value that is not a number.
pub const CANONICAL_NAN_BITS: u32 = 0x7fc0_0000;

/// A single-precision IEEE 754 value, stored as its 32 bits.
///
/// Two scalars are equal when their canonical patterns agree: every NaN equals
/// every other NaN, the two zeroes are equal, and any other value equals only
/// itself. Equality is therefore reflexive on every pattern.
#[derive(Debug, Clone, Copy)]
pub struct Scalar {
    pub bits: u32,
}

impl Scalar {
    /// Whether the pattern encodes a value that is not a number.
    pub open spec fn nan(self) -> bool {
        (self.bits & MAGNITUDE_MASK) > INFINITY_BITS
    }

    /// The canonical pattern by which scalars are compared and hashed.
    pub open spec fn key(self) -> u32 {
        if self.nan() {
            CANONICAL_NAN_BITS
        } else if self.bits == SIGN_BIT {
            0
        } else {
            self.bits
        }
    }

    /// Whether the sign bit is set.
    pub open spec fn negative(self) -> bool {
        (self.bits & SIGN_BIT) != 0
    }

    /// The pattern without its sign, as a number.
    pub open spec fn magnitude(self) -> int {
        (self.bits & MAGNITUDE_MASK) as int
    }

    /// A number that orders the values that are numbers as the values
    /// themselves are ordered: the magnitude, counted below zero where the
    /// sign is set. Both zeroes get 0.
    pub open spec fn rank(self) -> int {
        if self.negative() {
            -self.magnitude()
        } else {
            self.magnitude()
        }
    }

    /// Whether this value is less than or equal to `other`. A value that is
    /// not a number is in no order with anything.
    pub open spec fn le(self, other: Scalar) -> bool {
        !self.nan() && !other.nan() && self.rank() <= other.rank()
    }

    /// Whether this value is less than `other`. A value that is not a number
    /// is in no order with anything.
    pub open spec fn lt(self, other: Scalar) -> bool {
        !self.nan() && !other.nan() && self.rank() < other.rank()
    }

    /// The pattern with the sign flipped.
    pub open spec fn neg(self) -> Scalar {
        Scalar { bits: self.bits ^ SIGN_BIT }
    }

    /// The scalar with exactly these bits.
    pub fn from_bits(bits: u32) -> (r: Scalar)
        ensures
            r.bits == bits,
    {
        Scalar { bits }
    }

    /// The stored bits, unchanged.
    pub fn to_bits(self) -> (r: u32)
        ensures
            r == self.bits,
    {
        self.bits
    }

    /// Positive zero.
    pub fn zero() -> (r: Scalar)
        ensures
            r.bits == 0,
    {
        Scalar { bits: 0 }
    }

    /// The value one.
    pub fn one() -> (r: Scalar)
        ensures
            r.bits == 0x3f80_0000,
    {
        Scalar { bits: 0x3f80_0000 }
    }

    /// The value minus one.
    pub fn neg_one() -> (r: Scalar)
        ensures
            r.bits == 0xbf80_0000,
    {
        Scalar { bits: 0xbf80_0000 }
    }

    /// The largest finite value.
    pub fn max_value() -> (r: Scalar)
        ensures
            r.bits == 0x7f7f_ffff,
    {
        Scalar { bits: 0x7f7f_ffff }
    }

    /// The smallest finite value, the negation of the largest.
    pub fn min_value() -> (r: Scalar)
        ensures
            r.bits == 0xff7f_ffff,
    {
        Scalar { bits: 0xff7f_ffff }
    }

    /// Whether the value is not a number.
    pub fn is_nan(self) -> (r: bool)
        ensures
            r == self.nan(),
    {
        (self.bits & MAGNITUDE_MASK) > INFINITY_BITS
    }

    /// The canonical pattern: one pattern for all NaNs, one for both zeroes.
    pub fn canonical_bits(self) -> (r: u32)
        ensures
            r == self.key(),
    {
        if self.is_nan() {
            CANONICAL_NAN_BITS
        } else if self.bits == SIGN_BIT {
            0
        } else {
            self.bits
        }
    }

    /// Whether this value is less than or equal to `other`.
    pub fn at_most(self, other: Scalar) -> (r: bool)
        ensures
            r == self.le(other),
    {
        if self.is_nan() || other.is_nan() {
            return false;
        }
        let own: u32 = self.bits & MAGNITUDE_MASK;
        let their: u32 = other.bits & MAGNITUDE_MASK;
        if (self.bits & SIGN_BIT) != 0 {
            if (other.bits & SIGN_BIT) != 0 {
                own >= their
            } else {
                true
            }
        } else {
            if (other.bits & SIGN_BIT) != 0 {
                own == 0 && their == 0
            } else {
                own <= their
            }
        }
    }

    /// Whether this value is less than `other`.
    pub fn less_than(self, other: Scalar) -> (r: bool)
        ensures
            r == self.lt(other),
    {
        if self.is_nan() || other.is_nan() {
            return false;
        }
        let own: u32 = self.bits & MAGNITUDE_MASK;
        let their: u32 = other.bits & MAGNITUDE_MASK;
        if (self.bits & SIGN_BIT) != 0 {
            if (other.bits & SIGN_BIT) != 0 {
                own > their
            } else {
                own != 0 || their != 0
            }
        } else {
            if (other.bits & SIGN_BIT) != 0 {
                false
            } else {
                own < their
            }
        }
    }

    /// The negated value: the same magnitude with the opposite sign.
    pub fn negated(self) -> (r: Scalar)
        ensures
            r == self.neg(),
            r.nan() == self.nan(),
    {
        let bits: u32 = self.bits;
        assert(((bits ^ 0x8000_0000u32) & 0x7fff_ffffu32) == (bits & 0x7fff_ffffu32))
            by (bit_vector);
        Scalar { bits: self.bits ^ SIGN_BIT }
    }

    /// Negating twice gives back every bit.
    pub proof fn lemma_neg_involution(self)
        ensures
            self.neg().neg() == self,
    {
        let bits: u32 = self.bits;
        assert(((bits ^ 0x8000_0000u32) ^ 0x8000_0000u32) == bits) by (bit_vector);
    }

    /// Scalars with the same bits are equal and have the same canonical
    /// pattern, whatever the bits are: a NaN equals itself.
    pub proof fn lemma_same_bits_equal(self, other: Scalar)
        requires
            self.bits == other.bits,
        ensures
            self.key() == other.key(),
            self.neg().key() == other.neg().key(),
    {
    }

    /// Values that are numbers are equal exactly when neither is less than
    /// the other.
    pub proof fn lemma_equal_iff_same_rank(self, other: Scalar)
        requires
            !self.nan(),
            !other.nan(),
        ensures
            self.key() == other.key() <==> self.rank() == other.rank(),
    {
        let a: u32 = self.bits;
        let b: u32 = other.bits;
        assert((a & 0x8000_0000u32) == 0 && (b & 0x8000_0000u32) == 0 && (a & 0x7fff_ffffu32) == (b
            & 0x7fff_ffffu32) ==> a == b) by (bit_vector);
        assert((a & 0x8000_0000u32) != 0 && (b & 0x8000_0000u32) != 0 && (a & 0x7fff_ffffu32) == (b
            & 0x7fff_ffffu32) ==> a == b) by (bit_vector);
        assert((a & 0x8000_0000u32) != 0 && (a & 0x7fff_ffffu32) == 0 ==> a == 0x8000_0000u32)
            by (bit_vector);
        assert((b & 0x8000_0000u32) != 0 && (b & 0x7fff_ffffu32) == 0 ==> b == 0x8000_0000u32)
            by (bit_vector);
        assert((a & 0x8000_0000u32) == 0 && (a & 0x7fff_ffffu32) == 0 ==> a == 0u32)
            by (bit_vector);
        assert((b & 0x8000_0000u32) == 0 && (b & 0x7fff_ffffu32) == 0 ==> b == 0u32)
            by (bit_vector);
        assert((0x8000_0000u32 & 0x7fff_ffffu32) == 0u32) by (bit_vector);
        assert((0x8000_0000u32 & 0x8000_0000u32) != 0u32) by (bit_vector);
        assert((0u32 & 0x7fff_ffffu32) == 0u32) by (bit_vector);
        assert((0u32 & 0x8000_0000u32) == 0u32) by (bit_vector);
    }

    /// Zero, one and minus one are numbers; zero has the rank 0, and one
    /// and minus one have opposite ranks.
    pub proof fn lemma_unit_values()
        ensures
            !(Scalar { bits: 0 }).nan(),
            (Scalar { bits: 0 }).rank() == 0,
            !(Scalar { bits: 0x3f80_0000 }).nan(),
            (Scalar { bits: 0x3f80_0000 }).rank() == 0x3f80_0000,
            !(Scalar { bits: 0xbf80_0000 }).nan(),
            (Scalar { bits: 0xbf80_0000 }).rank() == -0x3f80_0000,
    {
        assert((0x3f80_0000u32 & 0x7fff_ffffu32) == 0x3f80_0000u32) by (bit_vector);
        assert((0xbf80_0000u32 & 0x7fff_ffffu32) == 0x3f80_0000u32) by (bit_vector);
        assert((0x3f80_0000u32 & 0x8000_0000u32) == 0u32) by (bit_vector);
        assert((0xbf80_0000u32 & 0x8000_0000u32) != 0u32) by (bit_vector);
        assert((0u32 & 0x7fff_ffffu32) == 0u32) by (bit_vector);
        assert((0u32 & 0x8000_0000u32) == 0u32) by (bit_vector);
    }

    /// Negation reverses the order.
    pub proof fn lemma_neg_reverses_rank(self)
        ensures
            self.neg().rank() == -self.rank(),
            self.neg().nan() == self.nan(),
    {
        let a: u32 = self.bits;
        assert(((a ^ 0x8000_0000u32) & 0x7fff_ffffu32) == (a & 0x7fff_ffffu32)) by (bit_vector);
        assert((((a ^ 0x8000_0000u32) & 0x8000_0000u32) != 0) == ((a & 0x8000_0000u32) == 0))
            by (bit_vector);
    }

    /// Equal scalars have equal negations.
    pub proof fn lemma_neg_respects_key(self, other: Scalar)
        requires
            self.key() == other.key(),
        ensures
            self.neg().key() == other.neg().key(),
    {
        let a: u32 = self.bits;
        let b: u32 = other.bits;
        assert(((a ^ 0x8000_0000u32) & 0x7fff_ffffu32) == (a & 0x7fff_ffffu32)) by (bit_vector);
        assert(((b ^ 0x8000_0000u32) & 0x7fff_ffffu32) == (b & 0x7fff_ffffu32)) by (bit_vector);
        assert(0x8000_0000u32 ^ 0x8000_0000u32 == 0u32) by (bit_vector);
        assert(0u32 ^ 0x8000_0000u32 == 0x8000_0000u32) by (bit_vector);
        assert((0u32 & 0x7fff_ffffu32) == 0u32) by (bit_vector);
        assert((0x7fc0_0000u32 & 0x7fff_ffffu32) == 0x7fc0_0000u32) by (bit_vector);
        assert((0x8000_0000u32 & 0x7fff_ffffu32) == 0u32) by (bit_vector);
        assert((a ^ 0x8000_0000u32) == 0x8000_0000u32 ==> a == 0u32) by (bit_vector);
        assert((b ^ 0x8000_0000u32) == 0x8000_0000u32 ==> b == 0u32) by (bit_vector);
        assert((a ^ 0x8000_0000u32) == (b ^ 0x8000_0000u32) ==> a == b) by (bit_vector);
    }
}

impl PartialEq for Scalar {
    fn eq(&self, other: &Scalar) -> (r: bool) {
        self.canonical_bits() == other.canonical_bits()
    }
}

impl Eq for Scalar {

}

impl vstd::std_specs::cmp::PartialEqSpecImpl for Scalar {
    open spec fn obeys_eq_spec() -> bool {
        true
    }

    open spec fn eq_spec(&self, other: &Scalar) -> bool {
        self.key() == other.key()
    }
}

/// Hands `bits` to the hasher through `Hasher::write_u32` of the standard
/// library. Nothing is claimed of what the hasher does with them.
#[verifier::external_body]
pub(crate) fn feed_u32<H: Hasher>(state: &mut H, bits: u32) {
    state.write_u32(bits)
}

impl Hash for Scalar {
    /// Feeds the canonical pattern to the hasher, and nothing else: scalars
    /// that are equal feed the same bits.
    fn hash<H: Hasher>(&self, state: &mut H) {
        feed_u32(state, self.canonical_bits())
    }
}

/// A two-dimensional sample or parameter: one scalar for each axis.
#[derive(Debug, Clone, Copy, Eq, Hash)]
pub struct ScalarPair {
    pub x: Scalar,
    pub y: Scalar,
}

impl ScalarPair {
    /// Whether both components are equal as scalars.
    pub open spec fn same(self, other: ScalarPair) -> bool {
        self.x.key() == other.x.key() && self.y.key() == other.y.key()
    }

    /// The pair with these two components.
    pub fn new(x: Scalar, y: Scalar) -> (r: ScalarPair)
        ensures
            r.x == x,
            r.y == y,
    {
        ScalarPair { x, y }
    }

    /// The pair whose two components are both `value`.
    pub fn splat(value: Scalar) -> (r: ScalarPair)
        ensures
            r.x == value,
            r.y == value,
    {
        ScalarPair { x: value, y: value }
    }

    /// The pair built from the bit patterns of its components.
    pub fn from_bits(x: u32, y: u32) -> (r: ScalarPair)
        ensures
            r.x.bits == x,
            r.y.bits == y,
    {
        ScalarPair { x: Scalar { bits: x }, y: Scalar { bits: y } }
    }

    /// Whether the two pairs are equal component by component.
    pub fn equals(&self, other: &ScalarPair) -> (r: bool)
        ensures
            r == self.same(*other),
    {
        self.x.canonical_bits() == other.x.canonical_bits() && self.y.canonical_bits()
            == other.y.canonical_bits()
    }

    /// Pairs with the same bits are equal, whatever the bits are.
    pub proof fn lemma_same_bits_equal(self, other: ScalarPair)
        requires
            self.x.bits == other.x.bits,
            self.y.bits == other.y.bits,
        ensures
            self.same(other),
    {
    }
}

impl PartialEq for ScalarPair {
    fn eq(&self, other: &ScalarPair) -> (r: bool) {
        self.equals(other)
    }
}

impl vstd::std_specs::cmp::PartialEqSpecImpl for ScalarPair {
    open spec fn obeys_eq_spec() -> bool {
        true
    }

    open spec fn eq_spec(&self, other: &ScalarPair) -> bool {
        self.same(*other)
    }
}

} // verus!
