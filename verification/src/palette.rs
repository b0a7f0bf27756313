//! Palettes: one register byte that maps each of the four pixel values to a
//! shade, kept beside the four decoded entries.

use vstd::prelude::*;

verus! {

/// Entry `index` of the palette that the register byte `raw` encodes: the two
/// bits from bit `2 * index` up.
pub open spec fn palette_entry(raw: u8, index: u8) -> u8 {
    (raw >> ((2 * index) as u8)) & 3
}

/// A palette register with its decoded entries.
pub struct Palette {
    pub table: [u8; 4],
    pub raw: u8,
}

impl Palette {
    /// Whether the decoded entries are those that the register byte encodes.
    pub open spec fn wf(&self) -> bool {
        forall|i: int| 0 <= i < 4 ==> #[trigger] self.table[i] == palette_entry(self.raw, i as u8)
    }

    /// A palette whose register byte and entries are all 0.
    pub fn new() -> (palette: Palette)
        ensures
            palette.raw == 0,
            palette.wf(),
    {
        assert(forall|i: u8| i < 4 ==> #[trigger] (0u8 >> ((2 * i) as u8)) & 3 == 0)
            by (bit_vector);
        let palette = Palette { table: [0u8; 4], raw: 0 };
        assert forall|i: int| 0 <= i < 4 implies #[trigger] palette.table[i] == palette_entry(
            palette.raw,
            i as u8,
        ) by {
            assert((0u8 >> ((2 * (i as u8)) as u8)) & 3 == 0);
        }
        palette
    }

    /// Stores a new register byte and decodes its four entries.
    pub fn update(&mut self, raw: u8)
        ensures
            final(self).raw == raw,
            final(self).wf(),
    {
        self.raw = raw;
        let mut rest: u8 = raw;
        let mut i: usize = 0;
        assert(raw >> 0u8 == raw) by (bit_vector);
        while i < 4
            invariant
                i <= 4,
                self.raw == raw,
                i < 4 ==> rest == raw >> ((2 * i) as u8),
                forall|k: int|
                    0 <= k < i ==> #[trigger] self.table[k] == palette_entry(raw, k as u8),
            decreases 4 - i,
        {
            self.table[i] = rest & 0b11;
            let ghost shift: u8 = (2 * i) as u8;
            assert(shift < 6 ==> (raw >> shift) >> 2u8 == raw >> ((shift + 2) as u8))
                by (bit_vector);
            rest = rest >> 2;
            i = i + 1;
        }
    }
}

} // verus!
