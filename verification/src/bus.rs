//! The address bus: devices bound to inclusive address ranges, and the routing
//! of 8-bit and 16-bit accesses to the first device whose range holds the
//! address.

use vstd::prelude::*;

verus! {

/// What a read of an address that no device is bound to returns.
pub const OPEN_BUS: u8 = 0xFF;

/// A device that can be read and written by address.
///
/// A device is described by four specification functions that its implementor
/// chooses. `wf` is the device's own invariant and `accepts` the set of
/// addresses it may be asked about; neither may be changed by an access.
/// `reads` and `writes` are the device's transition relations: they say which
/// value and which next state an access may lead to. A device that promises
/// nothing about an access lets the relation hold always.
///
/// The 16-bit accesses are made of two 8-bit ones, the low byte at the lower
/// address. A device may write them anew; they have to do the same.
pub trait BusRW: Sized {
    /// The invariant that every access needs and keeps.
    spec fn wf(&self) -> bool;

    /// Whether `addr` may be handed to the device.
    spec fn accepts(&self, addr: usize) -> bool;

    /// Whether a read of `addr` in this state may return `value` and leave the
    /// device in state `next`.
    spec fn reads(&self, addr: usize, value: u8, next: &Self) -> bool;

    /// Whether a write of `value` to `addr` in this state may leave the device
    /// in state `next`.
    spec fn writes(&self, addr: usize, value: u8, next: &Self) -> bool;

    /// Writes the byte `value` to `addr`.
    fn bus_write8(&mut self, addr: usize, value: u8)
        requires
            old(self).wf(),
            old(self).accepts(addr),
        ensures
            final(self).wf(),
            old(self).writes(addr, value, final(self)),
            forall|a: usize| #[trigger] final(self).accepts(a) == old(self).accepts(a),
    ;

    /// Reads the byte at `addr`.
    fn bus_read8(&mut self, addr: usize) -> (value: u8)
        requires
            old(self).wf(),
            old(self).accepts(addr),
        ensures
            final(self).wf(),
            old(self).reads(addr, value, final(self)),
            forall|a: usize| #[trigger] final(self).accepts(a) == old(self).accepts(a),
    ;

    /// Reads the byte at `addr + 1`, then the byte at `addr`, and joins them
    /// with the byte at `addr` as the low one.
    fn bus_read16(&mut self, addr: usize) -> (value: u16)
        requires
            old(self).wf(),
            addr < usize::MAX,
            old(self).accepts(addr),
            old(self).accepts((addr + 1) as usize),
        ensures
            final(self).wf(),
            exists|middle: Self|
                #![trigger old(self).reads((addr + 1) as usize, (value / 256) as u8, &middle)]
                old(self).reads((addr + 1) as usize, (value / 256) as u8, &middle)
                    && middle.reads(addr, (value % 256) as u8, final(self)),
            forall|a: usize| #[trigger] final(self).accepts(a) == old(self).accepts(a),
    {
        let ghost before = *self;
        let high: u8 = self.bus_read8(addr + 1);
        let ghost middle = *self;
        let low: u8 = self.bus_read8(addr);
        let value: u16 = join_bytes(low, high);
        proof {
            assert(before.reads((addr + 1) as usize, (value / 256) as u8, &middle));
        }
        value
    }

    /// Writes the low byte of `value` to `addr`, then the high byte to
    /// `addr + 1`.
    fn bus_write16(&mut self, addr: usize, value: u16)
        requires
            old(self).wf(),
            addr < usize::MAX,
            old(self).accepts(addr),
            old(self).accepts((addr + 1) as usize),
        ensures
            final(self).wf(),
            exists|middle: Self|
                #![trigger old(self).writes(addr, (value % 256) as u8, &middle)]
                old(self).writes(addr, (value % 256) as u8, &middle)
                    && middle.writes((addr + 1) as usize, (value / 256) as u8, final(self)),
            forall|a: usize| #[trigger] final(self).accepts(a) == old(self).accepts(a),
    {
        let ghost before = *self;
        let low: u8 = low_byte(value);
        let high: u8 = high_byte(value);
        self.bus_write8(addr, low);
        let ghost middle = *self;
        self.bus_write8(addr + 1, high);
        proof {
            assert(before.writes(addr, (value % 256) as u8, &middle));
        }
    }
}

/// The 16-bit value whose low byte is `low` and whose high byte is `high`.
pub open spec fn word_of(low: u8, high: u8) -> u16 {
    (256 * high + low) as u16
}

/// Whether a 16-bit read at `addr` in state `start` may return `value` and end
/// in state `end`: the byte at `addr + 1` is read first and is the high one.
pub open spec fn reads16<D: BusRW>(start: &D, addr: usize, value: u16, end: &D) -> bool {
    exists|middle: D|
        #![trigger start.reads((addr + 1) as usize, (value / 256) as u8, &middle)]
        start.reads((addr + 1) as usize, (value / 256) as u8, &middle) && middle.reads(
            addr,
            (value % 256) as u8,
            end,
        )
}

/// Whether a 16-bit write of `value` at `addr` in state `start` may end in
/// state `end`: the low byte goes to `addr` first, then the high byte to
/// `addr + 1`.
pub open spec fn writes16<D: BusRW>(start: &D, addr: usize, value: u16, end: &D) -> bool {
    exists|middle: D|
        #![trigger start.writes(addr, (value % 256) as u8, &middle)]
        start.writes(addr, (value % 256) as u8, &middle) && middle.writes(
            (addr + 1) as usize,
            (value / 256) as u8,
            end,
        )
}

/// Whether reading the addresses `base`, `base + 1`, ... one after the other,
/// starting in state `start`, may return the bytes of `bytes` in that order and
/// end in state `end`.
pub open spec fn reads_run<D: BusRW>(start: &D, base: usize, bytes: Seq<u8>, end: &D) -> bool
    decreases bytes.len(),
{
    if bytes.len() == 0 {
        *end == *start
    } else {
        exists|middle: D|
            #![trigger middle.reads((base + bytes.len() - 1) as usize, bytes.last(), end)]
            reads_run(start, base, bytes.drop_last(), &middle) && middle.reads(
                (base + bytes.len() - 1) as usize,
                bytes.last(),
                end,
            )
    }
}

/// A run of reads goes on with one more read at the next address.
pub proof fn lemma_reads_run_extend<D: BusRW>(
    start: &D,
    base: usize,
    bytes: Seq<u8>,
    middle: &D,
    value: u8,
    end: &D,
)
    requires
        reads_run(start, base, bytes, middle),
        middle.reads((base + bytes.len()) as usize, value, end),
    ensures
        reads_run(start, base, bytes.push(value), end),
{
    let longer = bytes.push(value);
    assert(longer.drop_last() =~= bytes);
    assert(middle.reads((base + longer.len() - 1) as usize, longer.last(), end));
}

proof fn lemma_join_bytes(low: u8, high: u8)
    ensures
        ((high as u16) << 8) | (low as u16) == word_of(low, high),
        word_of(low, high) / 256 == high,
        word_of(low, high) % 256 == low,
{
    assert(((high as u16) << 8) | (low as u16) == (256 * high + low) as u16) by (bit_vector);
}

pub(crate) fn join_bytes(low: u8, high: u8) -> (value: u16)
    ensures
        value == word_of(low, high),
        (value / 256) as u8 == high,
        (value % 256) as u8 == low,
{
    proof {
        lemma_join_bytes(low, high);
    }
    ((high as u16) << 8) | (low as u16)
}

pub(crate) fn low_byte(value: u16) -> (low: u8)
    ensures
        low == (value % 256) as u8,
{
    assert(value & 0xFF == value % 256) by (bit_vector);
    (value & 0xFF) as u8
}

pub(crate) fn high_byte(value: u16) -> (high: u8)
    ensures
        high == (value / 256) as u8,
{
    assert(value >> 8 == value / 256) by (bit_vector);
    (value >> 8) as u8
}

/// A device bound to the inclusive address range from `start` to `end`.
pub struct BusItem<D: BusRW> {
    start_addr: usize,
    end_addr: usize,
    item: D,
}

impl<D: BusRW> BusItem<D> {
    /// The first address of the range.
    pub closed spec fn start(&self) -> usize {
        self.start_addr
    }

    /// The last address of the range.
    pub closed spec fn end(&self) -> usize {
        self.end_addr
    }

    /// The device behind the range.
    pub closed spec fn device(&self) -> D {
        self.item
    }

    /// Whether `addr` lies in the range, both ends included.
    pub open spec fn holds(&self, addr: usize) -> bool {
        self.start() <= addr && addr <= self.end()
    }

    /// Binds `item` to the addresses from `start_addr` to `end_addr`, both
    /// included. With `start_addr` above `end_addr` the range holds nothing.
    pub fn new(start_addr: usize, end_addr: usize, item: D) -> (bound: BusItem<D>)
        ensures
            bound.start() == start_addr,
            bound.end() == end_addr,
            bound.device() == item,
    {
        BusItem { start_addr, end_addr, item }
    }

    /// Whether `addr` lies in the range.
    pub fn in_range(&self, addr: usize) -> (inside: bool)
        ensures
            inside == self.holds(addr),
    {
        self.start_addr <= addr && self.end_addr >= addr
    }

    /// Writes a byte to the device, whether or not the range holds `addr`.
    pub fn bus_write8(&mut self, addr: usize, value: u8)
        requires
            old(self).device().wf(),
            old(self).device().accepts(addr),
        ensures
            final(self).start() == old(self).start(),
            final(self).end() == old(self).end(),
            final(self).device().wf(),
            old(self).device().writes(addr, value, &final(self).device()),
            forall|a: usize| #[trigger]
                final(self).device().accepts(a) == old(self).device().accepts(a),
    {
        self.item.bus_write8(addr, value);
    }

    /// Writes a word to the device, as the device writes words.
    pub fn bus_write16(&mut self, addr: usize, value: u16)
        requires
            old(self).device().wf(),
            addr < usize::MAX,
            old(self).device().accepts(addr),
            old(self).device().accepts((addr + 1) as usize),
        ensures
            final(self).start() == old(self).start(),
            final(self).end() == old(self).end(),
            final(self).device().wf(),
            writes16(&old(self).device(), addr, value, &final(self).device()),
            forall|a: usize| #[trigger]
                final(self).device().accepts(a) == old(self).device().accepts(a),
    {
        self.item.bus_write16(addr, value);
    }

    /// Reads a byte from the device, whether or not the range holds `addr`.
    pub fn bus_read8(&mut self, addr: usize) -> (value: u8)
        requires
            old(self).device().wf(),
            old(self).device().accepts(addr),
        ensures
            final(self).start() == old(self).start(),
            final(self).end() == old(self).end(),
            final(self).device().wf(),
            old(self).device().reads(addr, value, &final(self).device()),
            forall|a: usize| #[trigger]
                final(self).device().accepts(a) == old(self).device().accepts(a),
    {
        self.item.bus_read8(addr)
    }

    /// Reads a word from the device, as the device reads words.
    pub fn bus_read16(&mut self, addr: usize) -> (value: u16)
        requires
            old(self).device().wf(),
            addr < usize::MAX,
            old(self).device().accepts(addr),
            old(self).device().accepts((addr + 1) as usize),
        ensures
            final(self).start() == old(self).start(),
            final(self).end() == old(self).end(),
            final(self).device().wf(),
            reads16(&old(self).device(), addr, value, &final(self).device()),
            forall|a: usize| #[trigger]
                final(self).device().accepts(a) == old(self).device().accepts(a),
    {
        self.item.bus_read16(addr)
    }
}

/// The bus: bound devices in the order in which they were added.
pub struct Bus<D: BusRW> {
    members: Vec<BusItem<D>>,
}

impl<D: BusRW> Bus<D> {
    /// The bound devices, first added first.
    pub closed spec fn items(&self) -> Seq<BusItem<D>> {
        self.members@
    }

    /// Whether an access to `addr` goes to item `i`: the first one, in the
    /// order of adding, whose range holds `addr`.
    pub open spec fn routes_to(&self, addr: usize, i: int) -> bool {
        &&& 0 <= i < self.items().len()
        &&& self.items()[i].holds(addr)
        &&& forall|j: int| 0 <= j < i ==> !(#[trigger] self.items()[j]).holds(addr)
    }

    /// Whether no item's range holds `addr`.
    pub open spec fn unmapped(&self, addr: usize) -> bool {
        forall|i: int| 0 <= i < self.items().len() ==> !(#[trigger] self.items()[i]).holds(addr)
    }

    /// Whether `next` binds the same ranges in the same order, with every
    /// device but the one that `addr` goes to left as it was.
    pub open spec fn only_target_moves(&self, addr: usize, next: &Self) -> bool {
        &&& next.items().len() == self.items().len()
        &&& forall|i: int|
            0 <= i < self.items().len() ==> {
                &&& (#[trigger] next.items()[i]).start() == self.items()[i].start()
                &&& next.items()[i].end() == self.items()[i].end()
                &&& !self.routes_to(addr, i) ==> next.items()[i].device()
                    == self.items()[i].device()
            }
    }

    /// Whether `next` binds the same ranges in the same order to devices that
    /// accept what the devices of `self` accept.
    spec fn same_bindings(&self, next: &Self) -> bool {
        &&& next.items().len() == self.items().len()
        &&& forall|i: int|
            0 <= i < self.items().len() ==> {
                &&& (#[trigger] next.items()[i]).start() == self.items()[i].start()
                &&& next.items()[i].end() == self.items()[i].end()
                &&& forall|a: usize| #[trigger]
                    next.items()[i].device().accepts(a) == self.items()[i].device().accepts(a)
            }
    }

    /// A bus accepts the same addresses as long as its bindings stay the same.
    proof fn lemma_same_bindings_accept(&self, next: &Self)
        requires
            self.same_bindings(next),
        ensures
            forall|a: usize| #[trigger] next.accepts(a) == self.accepts(a),
    {
        assert forall|a: usize| #[trigger] next.accepts(a) == self.accepts(a) by {
            assert forall|i: int| next.routes_to(a, i) == self.routes_to(a, i) by {
                if 0 <= i < self.items().len() {
                    assert(next.items()[i].holds(a) == self.items()[i].holds(a));
                    if self.routes_to(a, i) {
                        assert forall|j: int| 0 <= j < i implies !(#[trigger] next.items()[
                            j
                        ]).holds(a) by {
                            assert(!self.items()[j].holds(a));
                        }
                    }
                    if next.routes_to(a, i) {
                        assert forall|j: int| 0 <= j < i implies !(#[trigger] self.items()[
                            j
                        ]).holds(a) by {
                            assert(!next.items()[j].holds(a));
                        }
                    }
                }
            }
            if self.accepts(a) {
                assert forall|i: int| next.routes_to(a, i) implies (#[trigger] next.items()[
                    i
                ]).device().accepts(a) by {
                    assert(self.routes_to(a, i));
                    assert(self.items()[i].device().accepts(a));
                }
            }
            if next.accepts(a) {
                assert forall|i: int| self.routes_to(a, i) implies (#[trigger] self.items()[
                    i
                ]).device().accepts(a) by {
                    assert(next.routes_to(a, i));
                    assert(next.items()[i].device().accepts(a));
                }
            }
        }
    }

    /// An address goes to one item at most.
    pub proof fn lemma_route_unique(&self, addr: usize, i: int, j: int)
        requires
            self.routes_to(addr, i),
            self.routes_to(addr, j),
        ensures
            i == j,
    {
        if i < j {
            assert(!self.items()[i].holds(addr));
        }
        if j < i {
            assert(!self.items()[j].holds(addr));
        }
    }

    /// An address that no item's range holds goes to no item, and the bus
    /// accepts it.
    pub proof fn lemma_unmapped_accepted(&self, addr: usize)
        requires
            self.unmapped(addr),
        ensures
            forall|i: int| !self.routes_to(addr, i),
            self.accepts(addr),
    {
        assert forall|i: int| !self.routes_to(addr, i) by {
            if 0 <= i < self.items().len() {
                assert(!self.items()[i].holds(addr));
            }
        }
    }

    /// The bus accepts an address that goes to a device which accepts it.
    pub proof fn lemma_routed_accepted(&self, addr: usize, i: int)
        requires
            self.routes_to(addr, i),
            self.items()[i].device().accepts(addr),
        ensures
            self.accepts(addr),
    {
        assert forall|j: int| self.routes_to(addr, j) implies (#[trigger] self.items()[
            j
        ]).device().accepts(addr) by {
            self.lemma_route_unique(addr, i, j);
        }
    }

    /// A bus with no device bound to it.
    pub fn new() -> (bus: Bus<D>)
        ensures
            bus.items() == Seq::<BusItem<D>>::empty(),
    {
        Bus { members: Vec::new() }
    }

    /// The position of the item that an access to `addr` goes to.
    fn position(&self, addr: usize) -> (found: Option<usize>)
        ensures
            match found {
                Some(i) => self.routes_to(addr, i as int),
                None => self.unmapped(addr),
            },
    {
        let mut i: usize = 0;
        while i < self.members.len()
            invariant
                i <= self.members.len(),
                forall|j: int| 0 <= j < i ==> !(#[trigger] self.items()[j]).holds(addr),
            decreases self.members.len() - i,
        {
            if self.members[i].in_range(addr) {
                return Some(i);
            }
            i += 1;
        }
        None
    }

    /// The item that an access to `addr` goes to, if there is one.
    pub fn get_item(&self, addr: usize) -> (found: Option<&BusItem<D>>)
        ensures
            match found {
                Some(item) => exists|i: int|
                    self.routes_to(addr, i) && *item == #[trigger] self.items()[i],
                None => self.unmapped(addr),
            },
    {
        match self.position(addr) {
            Some(i) => Some(&self.members[i]),
            None => None,
        }
    }

    /// Binds one more device. Ranges may overlap: an address goes to the item
    /// that was added first.
    pub fn add_item(&mut self, item: BusItem<D>)
        ensures
            final(self).items() == old(self).items().push(item),
    {
        self.members.push(item);
    }
}

impl<D: BusRW> Default for Bus<D> {
    fn default() -> (bus: Self)
        ensures
            bus.items() == Seq::<BusItem<D>>::empty(),
    {
        Bus::new()
    }
}

impl<D: BusRW> BusRW for Bus<D> {
    /// Every bound device is well formed.
    open spec fn wf(&self) -> bool {
        forall|i: int| 0 <= i < self.items().len() ==> (#[trigger] self.items()[i]).device().wf()
    }

    /// An address is accepted unless it goes to a device that refuses it.
    open spec fn accepts(&self, addr: usize) -> bool {
        forall|i: int|
            self.routes_to(addr, i) ==> (#[trigger] self.items()[i]).device().accepts(addr)
    }

    /// The device that `addr` goes to is read; an unmapped address reads as
    /// `OPEN_BUS` and changes nothing.
    open spec fn reads(&self, addr: usize, value: u8, next: &Self) -> bool {
        &&& self.only_target_moves(addr, next)
        &&& forall|i: int|
            self.routes_to(addr, i) ==> (#[trigger] self.items()[i]).device().reads(
                addr,
                value,
                &next.items()[i].device(),
            )
        &&& self.unmapped(addr) ==> value == OPEN_BUS
    }

    /// The device that `addr` goes to is written; a write to an unmapped
    /// address changes nothing.
    open spec fn writes(&self, addr: usize, value: u8, next: &Self) -> bool {
        &&& self.only_target_moves(addr, next)
        &&& forall|i: int|
            self.routes_to(addr, i) ==> (#[trigger] self.items()[i]).device().writes(
                addr,
                value,
                &next.items()[i].device(),
            )
    }

    fn bus_write8(&mut self, addr: usize, value: u8) {
        if let Some(i) = self.position(addr) {
            self.members[i].bus_write8(addr, value);
        }
        proof {
            old(self).lemma_same_bindings_accept(self);
        }
    }

    fn bus_read8(&mut self, addr: usize) -> (value: u8) {
        let value: u8 = match self.position(addr) {
            Some(i) => self.members[i].bus_read8(addr),
            None => OPEN_BUS,
        };
        proof {
            old(self).lemma_same_bindings_accept(self);
        }
        value
    }
}

} // verus!
