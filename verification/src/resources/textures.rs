use vstd::prelude::*;

verus! {

/// The extent of the GPU image a decoded picture is copied into: a single
/// layer of the picture's width and height.
pub fn texture_extent(width: u32, height: u32) -> (extent: [u32; 3])
    ensures
        extent@ == seq![width, height, 1u32],
{
    let extent: [u32; 3] = [width, height, 1];
    proof {
        assert(extent@ =~= seq![width, height, 1u32]);
    }
    extent
}

} // verus!
