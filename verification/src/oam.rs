//! Sprite attributes: the four bytes that object attribute memory holds for
//! each sprite, decoded.

use vstd::prelude::*;

verus! {

/// The number of sprites in object attribute memory.
pub const OAM_SPRITE_COUNT: usize = 40;

/// The number of bytes that one sprite takes in object attribute memory.
pub const OAM_SPRITE_SIZE: usize = 4;

/// Attribute bit 4: which of the two object palettes the sprite uses.
pub const PALETTE_ATTRIB_MASK: u8 = 0x10;

/// Attribute bit 5: the sprite is mirrored left to right.
pub const XFLIP_ATTRIB_MASK: u8 = 0x20;

/// Attribute bit 6: the sprite is mirrored top to bottom.
pub const YFLIP_ATTRIB_MASK: u8 = 0x40;

/// Attribute bit 7: the sprite is drawn behind the background.
pub const BG_PRIORITY_ATTRIB_MASK: u8 = 0x80;

/// One decoded sprite.
#[derive(Clone, Copy, PartialEq, Debug)]
pub struct OamSprite {
    pub ypos: u8,
    pub xpos: u8,
    pub tile: u8,
    pub behind_background: bool,
    pub xflip: bool,
    pub yflip: bool,
    pub palette: bool,
}

/// The sprite that the four bytes of an entry encode, in the order in which
/// memory holds them: vertical position, horizontal position, tile index,
/// attributes.
pub open spec fn sprite_of(ypos: u8, xpos: u8, tile: u8, attrib: u8) -> OamSprite {
    OamSprite {
        ypos,
        xpos,
        tile,
        behind_background: attrib & BG_PRIORITY_ATTRIB_MASK != 0,
        xflip: attrib & XFLIP_ATTRIB_MASK != 0,
        yflip: attrib & YFLIP_ATTRIB_MASK != 0,
        palette: attrib & PALETTE_ATTRIB_MASK != 0,
    }
}

impl OamSprite {
    /// The sprite that four zero bytes encode.
    pub fn new() -> (sprite: OamSprite)
        ensures
            sprite == sprite_of(0, 0, 0, 0),
    {
        assert(0u8 & 0x80 == 0 && 0u8 & 0x40 == 0 && 0u8 & 0x20 == 0 && 0u8 & 0x10 == 0)
            by (bit_vector);
        OamSprite {
            ypos: 0,
            xpos: 0,
            tile: 0,
            behind_background: false,
            xflip: false,
            yflip: false,
            palette: false,
        }
    }

    /// Decodes the attribute byte into the four flags and leaves the
    /// positions and the tile index as they are.
    pub fn set_attrib_byte(&mut self, data: u8)
        ensures
            *final(self) == sprite_of(old(self).ypos, old(self).xpos, old(self).tile, data),
    {
        self.behind_background = data & BG_PRIORITY_ATTRIB_MASK != 0;
        self.xflip = data & XFLIP_ATTRIB_MASK != 0;
        self.yflip = data & YFLIP_ATTRIB_MASK != 0;
        self.palette = data & PALETTE_ATTRIB_MASK != 0;
    }
}

} // verus!
