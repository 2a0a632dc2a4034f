//! Sets of flags kept as the bits of one word.
use vstd::prelude::*;

verus! {

/// `all` has every bit of `part`.
pub open spec fn has_bits(all: u32, part: u32) -> bool {
    all & part == part
}

/// `all` with the bits of `part` set.
pub open spec fn set_bits(all: u32, part: u32) -> u32 {
    all | part
}

/// `all` with the bits of `part` cleared.
pub open spec fn clear_bits(all: u32, part: u32) -> u32 {
    all & !part
}

/// Bits that are set are had, and no other test changes: setting `part`
/// leaves the answer for every `other` that shares no bit with it.
pub proof fn lemma_set_bits(all: u32, part: u32, other: u32)
    ensures
        has_bits(set_bits(all, part), part),
        has_bits(all, part) ==> set_bits(all, part) == all,
        other & part == 0 ==> (has_bits(set_bits(all, part), other) <==> has_bits(all, other)),
{
    assert((all | part) & part == part) by (bit_vector);
    assert(all & part == part ==> all | part == all) by (bit_vector);
    assert(other & part == 0 ==> ((all | part) & other == other <==> all & other == other))
        by (bit_vector);
}

/// Bits that are cleared are not had, unless there were none to clear, and no
/// other test changes.
pub proof fn lemma_clear_bits(all: u32, part: u32, other: u32)
    ensures
        part != 0 ==> !has_bits(clear_bits(all, part), part),
        all & part == 0 ==> clear_bits(all, part) == all,
        other & part == 0 ==> (has_bits(clear_bits(all, part), other) <==> has_bits(all, other)),
{
    assert(part != 0 ==> (all & !part) & part != part) by (bit_vector);
    assert(all & part == 0 ==> all & !part == all) by (bit_vector);
    assert(other & part == 0 ==> ((all & !part) & other == other <==> all & other == other))
        by (bit_vector);
}

} // verus!
