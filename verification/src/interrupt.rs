//! The latch that collects interrupt requests until the processor serves them.

use vstd::prelude::*;

verus! {

/// The mask bit that lets the V-blank interrupt through.
pub const VBLANK_MASK: u8 = 0x01;

/// The mask bit that lets the LCD status interrupt through.
pub const LCDSTAT_MASK: u8 = 0x02;

/// Pending interrupt requests, and the mask that says which of them are let
/// through. A request stays pending until it is cleared; requesting what is
/// already pending changes nothing.
pub struct InterruptStatus {
    /// One bit per interrupt source; a source is let through when its bit is set.
    pub isrmask: u8,
    vblank: bool,
    lcdstat: bool,
}

impl InterruptStatus {
    /// The mask of sources that are let through.
    pub closed spec fn mask(&self) -> u8 {
        self.isrmask
    }

    /// Whether a V-blank request is pending.
    pub closed spec fn vblank_pending(&self) -> bool {
        self.vblank
    }

    /// Whether an LCD status request is pending.
    pub closed spec fn lcdstat_pending(&self) -> bool {
        self.lcdstat
    }

    /// Whether `next` is this latch with the given requests added to the
    /// pending ones.
    pub open spec fn latches(&self, vblank: bool, lcdstat: bool, next: &Self) -> bool {
        &&& next.mask() == self.mask()
        &&& next.vblank_pending() == (self.vblank_pending() || vblank)
        &&& next.lcdstat_pending() == (self.lcdstat_pending() || lcdstat)
    }

    /// Requests collapse: what was requested twice is pending as if it had
    /// been requested once.
    pub proof fn lemma_requests_collapse(
        &self,
        vblank: bool,
        lcdstat: bool,
        once: &Self,
        twice: &Self,
    )
        requires
            self.latches(vblank, lcdstat, once),
            once.latches(vblank, lcdstat, twice),
        ensures
            self.latches(vblank, lcdstat, twice),
            twice.vblank_pending() == once.vblank_pending(),
            twice.lcdstat_pending() == once.lcdstat_pending(),
    {
    }

    /// A latch with nothing pending and every source masked out.
    pub fn new() -> (latch: InterruptStatus)
        ensures
            latch.mask() == 0,
            !latch.vblank_pending(),
            !latch.lcdstat_pending(),
    {
        InterruptStatus { isrmask: 0, vblank: false, lcdstat: false }
    }

    pub fn request_vblank(&mut self)
        ensures
            old(self).latches(true, false, final(self)),
    {
        self.vblank = true;
    }

    pub fn request_lcdstat(&mut self)
        ensures
            old(self).latches(false, true, final(self)),
    {
        self.lcdstat = true;
    }

    pub fn clear_vblank(&mut self)
        ensures
            final(self).mask() == old(self).mask(),
            !final(self).vblank_pending(),
            final(self).lcdstat_pending() == old(self).lcdstat_pending(),
    {
        self.vblank = false;
    }

    pub fn clear_lcdstat(&mut self)
        ensures
            final(self).mask() == old(self).mask(),
            final(self).vblank_pending() == old(self).vblank_pending(),
            !final(self).lcdstat_pending(),
    {
        self.lcdstat = false;
    }

    /// Whether a V-blank request is pending and let through by the mask.
    pub fn is_vblank_active(&self) -> (active: bool)
        ensures
            active == (self.vblank_pending() && self.mask() & VBLANK_MASK != 0),
    {
        self.vblank && self.isrmask & VBLANK_MASK != 0
    }

    /// Whether an LCD status request is pending and let through by the mask.
    pub fn is_lcdstat_active(&self) -> (active: bool)
        ensures
            active == (self.lcdstat_pending() && self.mask() & LCDSTAT_MASK != 0),
    {
        self.lcdstat && self.isrmask & LCDSTAT_MASK != 0
    }
}

} // verus!
