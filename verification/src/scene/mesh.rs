use vstd::prelude::*;

verus! {

/// The count of a GPU buffer's elements as the `u32` that draw commands take:
/// the length modulo 2^32, as an `as u32` cast keeps it.
pub fn element_count_u32(len: u64) -> (count: u32)
    ensures
        count == len % 0x1_0000_0000,
{
    let count: u32 = len as u32;
    proof {
        assert(len as u32 == len % 0x1_0000_0000) by (bit_vector);
    }
    count
}

} // verus!
