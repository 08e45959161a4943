//! One entry of object attribute memory.

use vstd::prelude::*;

verus! {

#[derive(Clone, Copy, Debug, PartialEq, Eq, Structural)]
pub struct Sprite {
    /// The screen line of the sprite's top row, plus 16.
    pub y: u8,
    /// The screen column of the sprite's left edge, plus 8.
    pub x: u8,
    pub tile_index: u8,
    /// Bit 7: behind the background; bit 6: flipped vertically; bit 5:
    /// flipped horizontally; bit 4: palette OBP1.
    pub attributes: u8,
}

impl Sprite {
    pub fn new(y: u8, x: u8, tile_index: u8, attributes: u8) -> (s: Sprite)
        ensures
            s == (Sprite { y, x, tile_index, attributes }),
    {
        Sprite { y, x, tile_index, attributes }
    }
}

} // verus!
