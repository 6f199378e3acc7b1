//! Sizes of the textures cameras render into.

use vstd::prelude::*;

verus! {

/// The even size nearest below `size`, so that a texture of that size centres on whole pixels.
pub fn pixel_perfect_size(size: u32) -> (s: u32)
    ensures
        s == size - size % 2,
        s % 2 == 0,
        s <= size < s + 2,
{
    size - size % 2
}

} // verus!
