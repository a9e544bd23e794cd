//! Decoding of one OAM entry into the facts a renderer needs.

use vstd::prelude::*;

verus! {

/// One sprite, decoded from its four OAM bytes: screen position, which
/// pattern bank and tile index to draw, the sprite palette (0..3), and the
/// priority/flip attributes.
pub struct Sprite {
    pub x: u16,
    pub y: u16,
    pub bank: u16,
    pub tile_index: u16,
    pub palette: u8,
    pub visible: bool,
    pub flip_horizontally: bool,
    pub flip_vertically: bool,
}

impl Sprite {
    /// Decodes the four OAM bytes (y, tile, attributes, x) of one sprite.
    /// For 8x16 sprites (`tall_sprite`), bit 0 of the tile byte selects the
    /// pattern bank and the remaining bits the (even) tile index.
    pub fn from_data(data: &[u8], tall_sprite: bool) -> (r: Sprite)
        requires
            data@.len() == 4,
        ensures
            r.x == data@[3] as u16,
            r.y == data@[0] as u16,
            r.bank == (if tall_sprite && data@[1] % 2 == 1 {
                0x1000u16
            } else {
                0u16
            }),
            r.tile_index == (if tall_sprite {
                ((data@[1] / 2) * 2) as u16
            } else {
                data@[1] as u16
            }),
            r.palette == data@[2] % 4,
            r.visible == ((data@[2] / 32) % 2 == 0),
            r.flip_horizontally == ((data@[2] / 64) % 2 == 1),
            r.flip_vertically == (data@[2] >= 128),
    {
        let x = data[3] as u16;
        let y = data[0] as u16;
        let bank: u16 = if tall_sprite && data[1] % 2 == 1 {
            0x1000
        } else {
            0
        };
        let tile_index: u16 = if tall_sprite {
            ((data[1] / 2) * 2) as u16
        } else {
            data[1] as u16
        };
        let palette = data[2] % 4;
        let visible = (data[2] / 32) % 2 == 0;
        let flip_horizontally = (data[2] / 64) % 2 == 1;
        let flip_vertically = data[2] >= 128;
        Sprite { x, y, bank, tile_index, palette, visible, flip_horizontally, flip_vertically }
    }
}

} // verus!
