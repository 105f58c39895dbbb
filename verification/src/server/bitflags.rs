use vstd::prelude::*;

verus! {

/// Tests on a set of flags packed into the bits of a value.
pub trait BitFlag<T> {
    /// Every bit set in `flag` is set in `self`.
    fn contains(&self, flag: T) -> bool;

    /// `self` is exactly `flag`: no other bit is set, none is missing.
    fn is(&self, flag: T) -> bool;
}

/// Every bit set in `flag` is also set in `value`.
pub open spec fn has_all_bits(value: u32, flag: u32) -> bool {
    (value & flag) == flag
}

impl BitFlag<u32> for u32 {
    fn contains(&self, flag: u32) -> (r: bool)
        ensures
            r == has_all_bits(*self, flag),
    {
        (*self & flag) == flag
    }

    fn is(&self, flag: u32) -> (r: bool)
        ensures
            r == (*self == flag),
    {
        *self == flag
    }
}

/// A value that is exactly a flag contains it, and every value contains the
/// empty flag set.
pub proof fn lemma_is_implies_contains(value: u32, flag: u32)
    ensures
        value == flag ==> has_all_bits(value, flag),
        has_all_bits(value, 0),
{
    assert(value == flag ==> (value & flag) == flag) by (bit_vector);
    assert((value & 0) == 0) by (bit_vector);
}

} // verus!
