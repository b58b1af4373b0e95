//! World layout constants shared by every entity.

use vstd::prelude::*;

verus! {

/// Edge length of one background block, in pixels.
pub const BLOCK_SIZE: i32 = 16;

/// Number of background cells across a level map.
pub const MAP_WIDTH_CELLS: usize = 128;

/// Number of background cells down a level map.
pub const MAP_HEIGHT_CELLS: usize = 64;

/// Ticks during which a touching pair is ignored after a contact hit.
pub const ZAPHOLD_AFTER_TOUCH: i32 = 3;

/// Floor division of a pixel coordinate by the block size: the index of the
/// block column (or row) that holds pixel `v`.
pub open spec fn block_of(v: int) -> int {
    v / (BLOCK_SIZE as int)
}

/// Exec counterpart of [`block_of`].
pub fn block_index(v: i32) -> (r: i32)
    ensures
        r == block_of(v as int),
        r * BLOCK_SIZE <= v < r * BLOCK_SIZE + BLOCK_SIZE,
{
    let q = v.checked_div_euclid(BLOCK_SIZE);
    match q {
        Some(q) => q,
        None => 0,
    }
}

} // verus!
