//! The computational half of rendering: tile bitplane decoding and
//! attribute-table palette selection. Turning the resulting indices into
//! host pixels is the renderer's job, outside this crate.

use vstd::prelude::*;

verus! {

/// The 2-bit pixel value at position `i` (row-major, 8x8) of a 16-byte
/// tile: bitplane 0 in the first eight bytes, bitplane 1 in the second.
pub open spec fn chr_pixel(chr: Seq<u8>, i: int) -> u8 {
    let byte = i / 8;
    let bit = (7 - (i % 8)) as u8;
    ((chr[byte] >> bit) & 1) | ((((chr[byte + 8] >> bit) & 1)) << 1)
}

/// Decodes one 16-byte tile into its 64 pixel values (0..3), row-major.
pub fn chr_data_to_pixels(chr_data: Vec<u8>) -> (r: Vec<u8>)
    requires
        chr_data@.len() == 16,
    ensures
        r@.len() == 64,
        forall|i: int| 0 <= i < 64 ==> r@[i] == chr_pixel(chr_data@, i),
{
    let mut pixels: Vec<u8> = Vec::new();
    let mut byte: usize = 0;
    while byte < 8
        invariant
            byte <= 8,
            chr_data@.len() == 16,
            pixels@.len() == 8 * byte,
            forall|i: int| 0 <= i < 8 * byte ==> pixels@[i] == chr_pixel(chr_data@, i),
        decreases 8 - byte,
    {
        let mut col: usize = 0;
        while col < 8
            invariant
                byte < 8,
                col <= 8,
                chr_data@.len() == 16,
                pixels@.len() == 8 * byte + col,
                forall|i: int| 0 <= i < 8 * byte + col ==> pixels@[i] == chr_pixel(chr_data@, i),
            decreases 8 - col,
        {
            let bit = (7 - col) as u8;
            let pixel_value = ((chr_data[byte] >> bit) & 1) | (((chr_data[byte + 8] >> bit) & 1)
                << 1);
            pixels.push(pixel_value);
            proof {
                let i = 8 * byte + col;
                assert(i / 8 == byte as int && i % 8 == col as int);
            }
            col = col + 1;
        }
        byte = byte + 1;
    }
    pixels
}

/// Picks the 2-bit background palette index out of an attribute-table byte
/// for the tile at `(tile_x, tile_y)`: the byte holds four such indices,
/// one per quadrant of a 4x4-tile block.
pub fn bg_palette_index(meta_palette: u8, tile_x: u16, tile_y: u16) -> (r: u8)
    ensures
        r == (if tile_x % 2 == 0 && tile_y % 2 == 0 {
            meta_palette % 4
        } else if tile_x % 2 == 1 && tile_y % 2 == 0 {
            (meta_palette / 4) % 4
        } else if tile_x % 2 == 0 && tile_y % 2 == 1 {
            (meta_palette / 16) % 4
        } else {
            (meta_palette / 64) % 4
        }),
        r < 4,
{
    if tile_x % 2 == 0 && tile_y % 2 == 0 {
        meta_palette % 4
    } else if tile_x % 2 == 1 && tile_y % 2 == 0 {
        (meta_palette / 4) % 4
    } else if tile_x % 2 == 0 && tile_y % 2 == 1 {
        (meta_palette / 16) % 4
    } else {
        (meta_palette / 64) % 4
    }
}

} // verus!
