//! Values and the operations that the machine asks of its arithmetic unit.

use vstd::prelude::*;

verus! {

/// Mask that clears the sign bit of a binary64 encoding.
pub const MAGNITUDE_MASK: u64 = 0x7fff_ffff_ffff_ffff;

/// Encoding of negative zero: the sign bit alone.
pub const NEGATIVE_ZERO: u64 = 0x8000_0000_0000_0000;

/// The machine's only runtime datum: a double-precision number, held as its
/// IEEE 754 binary64 encoding.
///
/// The machine moves values around and asks one question of them, whether a
/// divisor is zero. Everything else about a number is the business of the
/// arithmetic unit. Equality on `Value` compares encodings, so the two zeros
/// differ and a NaN equals itself.
#[derive(Clone, Copy, Debug, PartialEq, Eq, Structural)]
pub struct Value {
    pub bits: u64,
}

/// The four binary operations that the machine asks of its arithmetic unit.
#[derive(Clone, Copy, Debug, PartialEq, Eq, Structural)]
pub enum BinOp {
    Add,
    Sub,
    Mul,
    Div,
}

impl Value {
    /// Whether the number compares equal to zero: its encoding is that of
    /// positive or of negative zero.
    pub open spec fn spec_is_zero(self) -> bool {
        self.bits == 0 || self.bits == NEGATIVE_ZERO
    }

    /// The value with the given binary64 encoding.
    pub fn from_bits(bits: u64) -> (v: Value)
        ensures
            v.bits == bits,
    {
        Value { bits }
    }

    /// The value's binary64 encoding.
    pub fn to_bits(self) -> (bits: u64)
        ensures
            bits == self.bits,
    {
        self.bits
    }

    /// Whether the number compares equal to zero. Both zeros do; no other
    /// encoding does, a NaN included.
    #[verifier::when_used_as_spec(spec_is_zero)]
    pub fn is_zero(self) -> (z: bool)
        ensures
            z == self.spec_is_zero(),
    {
        let bits: u64 = self.bits;
        let magnitude: u64 = bits & MAGNITUDE_MASK;
        assert((bits & 0x7fff_ffff_ffff_ffff == 0) <==> (bits == 0 || bits
            == 0x8000_0000_0000_0000)) by (bit_vector);
        magnitude == 0
    }
}

} // verus!
