use vstd::prelude::*;

verus! {

/// Mask of the exponent field of an IEEE 754 binary64 value.
pub const EXPONENT_MASK: u64 = 0x7ff0_0000_0000_0000u64;

/// Mask of the fraction (significand) field of an IEEE 754 binary64 value.
pub const FRACTION_MASK: u64 = 0x000f_ffff_ffff_ffffu64;

/// Mask of every bit but the sign bit.
pub const MAGNITUDE_MASK: u64 = 0x7fff_ffff_ffff_ffffu64;

/// A binary64 number held by its bit pattern.
///
/// The library never does arithmetic on playback positions or speeds; it only
/// stores them, hands them on and compares them. Holding the bit pattern keeps
/// every value exact, and `==` on this type is the IEEE 754 equality of the
/// numbers the patterns stand for (see [`ieee_eq`]).
#[derive(Clone, Copy, Debug)]
pub struct FloatBits {
    pub bits: u64,
}

/// The pattern stands for a NaN: all exponent bits set, fraction non-zero.
pub open spec fn is_nan_bits(bits: u64) -> bool {
    (bits & EXPONENT_MASK) == EXPONENT_MASK && (bits & FRACTION_MASK) != 0
}

/// The pattern stands for +0 or -0.
pub open spec fn is_zero_bits(bits: u64) -> bool {
    (bits & MAGNITUDE_MASK) == 0
}

/// IEEE 754 equality of two binary64 values given by their patterns:
/// a NaN equals nothing, +0 equals -0, and otherwise equal numbers have
/// equal patterns.
pub open spec fn ieee_eq(a: u64, b: u64) -> bool {
    !is_nan_bits(a) && !is_nan_bits(b) && (a == b || (is_zero_bits(a) && is_zero_bits(b)))
}

impl FloatBits {
    /// Wraps a bit pattern.
    pub fn from_bits(bits: u64) -> (r: FloatBits)
        ensures
            r.bits == bits,
    {
        FloatBits { bits }
    }

    /// The bit pattern.
    pub fn to_bits(&self) -> (r: u64)
        ensures
            r == self.bits,
    {
        self.bits
    }

    /// Whether the value is a NaN.
    pub fn is_nan(&self) -> (r: bool)
        ensures
            r == is_nan_bits(self.bits),
    {
        (self.bits & EXPONENT_MASK) == EXPONENT_MASK && (self.bits & FRACTION_MASK) != 0
    }

    /// IEEE 754 equality, as `==` on binary64 numbers computes it.
    pub fn same_value(&self, other: &FloatBits) -> (r: bool)
        ensures
            r == ieee_eq(self.bits, other.bits),
    {
        if self.is_nan() || other.is_nan() {
            false
        } else {
            let a = self.bits;
            let b = other.bits;
            assert(((a | b) & 0x7fff_ffff_ffff_ffffu64) == 0 <==> ((a & 0x7fff_ffff_ffff_ffffu64)
                == 0 && (b & 0x7fff_ffff_ffff_ffffu64) == 0)) by (bit_vector);
            a == b || ((a | b) & MAGNITUDE_MASK) == 0
        }
    }
}

/// IEEE 754 equality is symmetric, holds of every value but NaN with itself,
/// never holds of NaN, and holds between +0 and -0.
pub proof fn lemma_ieee_eq_laws(a: u64, b: u64)
    ensures
        ieee_eq(a, b) == ieee_eq(b, a),
        !is_nan_bits(a) ==> ieee_eq(a, a),
        is_nan_bits(a) ==> !ieee_eq(a, b),
        ieee_eq(0u64, 0x8000_0000_0000_0000u64),
{
    assert((0u64 & 0x7fff_ffff_ffff_ffffu64) == 0u64) by (bit_vector);
    assert((0x8000_0000_0000_0000u64 & 0x7fff_ffff_ffff_ffffu64) == 0u64) by (bit_vector);
    assert((0u64 & 0x7ff0_0000_0000_0000u64) == 0u64) by (bit_vector);
    assert((0x8000_0000_0000_0000u64 & 0x7ff0_0000_0000_0000u64) == 0u64) by (bit_vector);
}

/// IEEE 754 equality is equality of the numbers: two patterns stand for the
/// same number exactly when they are the same pattern, except that +0 and -0
/// are one number and a NaN is no number at all. So distinct numbers are
/// never equal, and a value that is neither NaN nor zero equals only its own
/// pattern.
pub proof fn lemma_ieee_eq_is_numeric_equality(a: u64, b: u64)
    ensures
        !is_nan_bits(a) && !is_zero_bits(a) && ieee_eq(a, b) ==> a == b,
        !is_nan_bits(a) && a == b ==> ieee_eq(a, b),
        is_zero_bits(a) && is_zero_bits(b) ==> ieee_eq(a, b),
        a != b && !(is_zero_bits(a) && is_zero_bits(b)) ==> !ieee_eq(a, b),
{
    assert(is_zero_bits(a) ==> !is_nan_bits(a)) by (bit_vector);
    assert(is_zero_bits(b) ==> !is_nan_bits(b)) by (bit_vector);
}

impl PartialEq for FloatBits {
    fn eq(&self, other: &FloatBits) -> (r: bool) {
        self.same_value(other)
    }
}

impl vstd::std_specs::cmp::PartialEqSpecImpl for FloatBits {
    open spec fn obeys_eq_spec() -> bool {
        true
    }

    open spec fn eq_spec(&self, other: &FloatBits) -> bool {
        ieee_eq(self.bits, other.bits)
    }
}

} // verus!
