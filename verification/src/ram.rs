//! Plain memory as a bus device.

use vstd::prelude::*;
use crate::bus::BusRW;

verus! {

/// A block of memory that answers to the addresses from `base` on, one byte
/// per address.
pub struct Ram {
    data: Vec<u8>,
    offset: usize,
}

impl View for Ram {
    type V = Seq<u8>;

    /// The bytes of the block, the one at `base` first.
    closed spec fn view(&self) -> Seq<u8> {
        self.data@
    }
}

impl Ram {
    /// The first address that the block answers to.
    pub closed spec fn base(&self) -> usize {
        self.offset
    }

    /// A block of `size` zero bytes that answers to the addresses from
    /// `offset` on.
    pub fn new(size: usize, offset: usize) -> (ram: Ram)
        ensures
            ram.base() == offset,
            ram@.len() == size,
            forall|i: int| 0 <= i < size ==> ram@[i] == 0,
    {
        let mut data: Vec<u8> = Vec::new();
        let mut i: usize = 0;
        while i < size
            invariant
                i <= size,
                data@.len() == i,
                forall|k: int| 0 <= k < i ==> data@[k] == 0,
            decreases size - i,
        {
            data.push(0);
            i += 1;
        }
        Ram { data, offset }
    }
}

impl BusRW for Ram {
    /// A block of memory has no invariant of its own.
    open spec fn wf(&self) -> bool {
        true
    }

    /// The block answers to as many addresses from `base` on as it has
    /// bytes.
    open spec fn accepts(&self, addr: usize) -> bool {
        self.base() <= addr < self.base() + self@.len()
    }

    /// A read returns the byte at the address and changes nothing.
    open spec fn reads(&self, addr: usize, value: u8, next: &Self) -> bool {
        value == self@[addr - self.base()] && *next == *self
    }

    /// A write replaces the byte at the address.
    open spec fn writes(&self, addr: usize, value: u8, next: &Self) -> bool {
        next.base() == self.base() && next@ == self@.update(addr - self.base(), value)
    }

    fn bus_write8(&mut self, addr: usize, value: u8) {
        self.data[addr - self.offset] = value;
    }

    fn bus_read8(&mut self, addr: usize) -> (value: u8) {
        self.data[addr - self.offset]
    }
}

/// A run of reads from a block of memory returns the block's bytes from the
/// first address of the run on, and leaves the block as it was.
pub proof fn lemma_ram_reads_run(start: &Ram, base: usize, bytes: Seq<u8>, end: &Ram)
    requires
        crate::bus::reads_run(start, base, bytes, end),
        base + bytes.len() <= usize::MAX,
    ensures
        *end == *start,
        forall|k: int|
            0 <= k < bytes.len() ==> #[trigger] bytes[k] == start@[base + k - start.base()],
    decreases bytes.len(),
{
    if bytes.len() > 0 {
        let middle = choose|middle: Ram|
            #![trigger middle.reads((base + bytes.len() - 1) as usize, bytes.last(), end)]
            crate::bus::reads_run(start, base, bytes.drop_last(), &middle) && middle.reads(
                (base + bytes.len() - 1) as usize,
                bytes.last(),
                end,
            );
        lemma_ram_reads_run(start, base, bytes.drop_last(), &middle);
        assert forall|k: int| 0 <= k < bytes.len() implies #[trigger] bytes[k] == start@[base + k
            - start.base()] by {
            if k < bytes.len() - 1 {
                assert(bytes.drop_last()[k] == bytes[k]);
            }
        }
    }
}

} // verus!
