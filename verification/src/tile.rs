//! Decoded tiles: 8 by 8 pixels of two bits each, kept beside the two bit
//! planes that the video memory stores for every row.

use vstd::prelude::*;

verus! {

/// The width and the height of a tile, in pixels.
pub const TILE_DIMENSION: usize = 8;

/// The number of bytes that one tile takes in video memory: two per row, the
/// low plane first.
pub const TILE_SIZE: usize = 16;

/// The bit that a plane byte holds for column `col`: the leftmost pixel is the
/// byte's most significant bit.
pub open spec fn row_bit(data: u8, col: u8) -> u8 {
    (data >> ((7 - col) as u8)) & 1
}

/// The pixel `pixel` with the bit of one plane replaced by `bit` and the bit of
/// the other plane kept. The low plane is bit 0 of a pixel, the high plane
/// bit 1.
pub open spec fn with_plane_bit(pixel: u8, high_plane: bool, bit: u8) -> u8 {
    let shift: u8 = if high_plane { 1 } else { 0 };
    (pixel & !(1u8 << shift)) | (bit << shift)
}

/// The pixel of column `col` in a row whose plane bytes are `low` and `high`.
pub open spec fn plane_pixel(low: u8, high: u8, col: u8) -> u8 {
    (row_bit(high, col) << 1) | row_bit(low, col)
}

/// A pixel built from two plane bytes is one of the four legal values.
pub proof fn lemma_plane_pixel_legal(low: u8, high: u8, col: u8)
    requires
        col < 8,
    ensures
        plane_pixel(low, high, col) <= 3,
{
    assert(((((high >> ((7 - col) as u8)) & 1) << 1) | ((low >> ((7 - col) as u8)) & 1)) <= 3)
        by (bit_vector)
        requires
            col < 8,
    ;
}

/// Replacing one plane bit of a pixel built from two plane bytes gives the
/// pixel built from those bytes with the plane's byte exchanged.
pub proof fn lemma_plane_write(low: u8, high: u8, data: u8, col: u8)
    requires
        col < 8,
    ensures
        with_plane_bit(plane_pixel(low, high, col), false, row_bit(data, col)) == plane_pixel(
            data,
            high,
            col,
        ),
        with_plane_bit(plane_pixel(low, high, col), true, row_bit(data, col)) == plane_pixel(
            low,
            data,
            col,
        ),
{
    let k: u8 = (7 - col) as u8;
    assert((((((high >> k) & 1) << 1) | ((low >> k) & 1)) & !(1u8 << 0u8)) | (((data >> k) & 1)
        << 0u8) == ((((high >> k) & 1) << 1) | ((data >> k) & 1))) by (bit_vector);
    assert((((((high >> k) & 1) << 1) | ((low >> k) & 1)) & !(1u8 << 1u8)) | (((data >> k) & 1)
        << 1u8) == ((((data >> k) & 1) << 1) | ((low >> k) & 1))) by (bit_vector);
}

/// A decoded tile.
#[derive(Clone, Copy)]
pub struct Tile {
    pixel: [[u8; 8]; 8],
}

impl Tile {
    /// The pixel in column `x` of row `y`.
    pub closed spec fn at(&self, x: int, y: int) -> u8 {
        self.pixel[y][x]
    }

    /// A tile whose pixels are all 0.
    pub fn new() -> (tile: Tile)
        ensures
            forall|x: int, y: int| 0 <= x < 8 && 0 <= y < 8 ==> tile.at(x, y) == 0,
    {
        Tile { pixel: [[0u8; 8]; 8] }
    }

    /// The pixel in column `x` of row `y`.
    pub fn read_pixel(&self, x: u8, y: u8) -> (value: u8)
        requires
            x < 8,
            y < 8,
        ensures
            value == self.at(x as int, y as int),
    {
        self.pixel[y as usize][x as usize]
    }

    /// Sets the pixel in column `x` of row `y` and leaves the others.
    pub fn write_pixel(&mut self, x: u8, y: u8, value: u8)
        requires
            x < 8,
            y < 8,
        ensures
            forall|i: int, j: int|
                0 <= i < 8 && 0 <= j < 8 ==> #[trigger] final(self).at(i, j) == if i == x && j == y {
                    value
                } else {
                    old(self).at(i, j)
                },
    {
        self.pixel[y as usize][x as usize] = value;
    }

    /// Stores one plane byte of row `y`: in every pixel of the row the bit of
    /// that plane becomes the byte's bit for the pixel's column.
    pub fn update_row(&mut self, data: u8, y: usize, msb: bool)
        requires
            y < 8,
        ensures
            forall|i: int, j: int|
                0 <= i < 8 && 0 <= j < 8 ==> #[trigger] final(self).at(i, j) == if j == y {
                    with_plane_bit(old(self).at(i, j), msb, row_bit(data, i as u8))
                } else {
                    old(self).at(i, j)
                },
    {
        let shift: u8 = if msb { 1 } else { 0 };
        let clear_mask: u8 = !(1u8 << shift);
        let mut rest: u8 = data;
        let mut done: u8 = 0;
        assert(data >> 0u8 == data) by (bit_vector);
        while done < 8
            invariant
                y < 8,
                done <= 8,
                shift == if msb { 1u8 } else { 0u8 },
                clear_mask == !(1u8 << shift),
                done < 8 ==> rest == data >> done,
                forall|i: int, j: int|
                    0 <= i < 8 && 0 <= j < 8 ==> #[trigger] self.at(i, j) == if j == y && i >= 8
                        - done {
                        with_plane_bit(old(self).at(i, j), msb, row_bit(data, i as u8))
                    } else {
                        old(self).at(i, j)
                    },
            decreases 8 - done,
        {
            let x: usize = (7 - done) as usize;
            let before: u8 = self.pixel[y][x];
            assert(before == self.at(x as int, y as int));
            let ghost previous = *self;
            assert(rest & 0x01 == row_bit(data, x as u8));
            self.pixel[y][x] = (before & clear_mask) | ((rest & 0x01) << shift);
            assert(done < 7 ==> (data >> done) >> 1u8 == data >> ((done + 1) as u8))
                by (bit_vector);
            rest = rest >> 1;
            done = done + 1;
            assert forall|i: int, j: int| 0 <= i < 8 && 0 <= j < 8 implies #[trigger] self.at(i, j)
                == if j == y && i >= 8 - done {
                with_plane_bit(old(self).at(i, j), msb, row_bit(data, i as u8))
            } else {
                old(self).at(i, j)
            } by {
                assert(self.at(i, j) == if i == x && j == y {
                    with_plane_bit(before, msb, row_bit(data, x as u8))
                } else {
                    previous.at(i, j)
                });
            }
        }
    }
}

} // verus!
