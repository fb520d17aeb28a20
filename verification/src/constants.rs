//! Sizes shared by the whole simulation.

use vstd::prelude::*;

verus! {

/// Edge of a sprite, in unscaled pixels.
pub const IMAGE_SIZE: i64 = 8;

/// Factor by which sprites are enlarged on screen.
pub const IMAGE_SCALE: i64 = 4;

/// Edge of one tile in world pixels: the sprite edge times the scale.
pub const IMAGE_SIZE_SCALED: i64 = 32;

/// Number of tile columns of the world map.
pub const MAP_WIDTH: usize = 1000;

/// Number of tile rows of the world map.
pub const MAP_HEIGHT: usize = 1000;

/// The scaled tile edge is the product of sprite edge and scale.
pub proof fn lemma_tile_edge()
    ensures
        IMAGE_SIZE_SCALED == IMAGE_SIZE * IMAGE_SCALE,
        IMAGE_SIZE_SCALED > 0,
{
}

} // verus!
