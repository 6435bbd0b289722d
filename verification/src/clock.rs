use vstd::prelude::*;

verus! {

/// Running totals of elapsed time. Both counters go round at sixteen bits.
#[derive(Clone, Copy, Debug, PartialEq, Eq, Structural)]
pub struct Clock {
    /// Machine cycles: one for every four clock cycles.
    pub m: u16,
    /// Clock cycles.
    pub t: u16,
}

impl Clock {
    /// The clock after `ticks` more clock cycles.
    pub open spec fn ticked(self, ticks: u32) -> Clock {
        Clock {
            m: ((self.m + ticks / 4) % 0x10000) as u16,
            t: ((self.t + ticks) % 0x10000) as u16,
        }
    }

    /// A clock at zero.
    pub fn new() -> (clock: Clock)
        ensures
            clock.m == 0,
            clock.t == 0,
    {
        Clock { m: 0, t: 0 }
    }

    /// Counts `ticks` more clock cycles.
    pub fn tick(&mut self, ticks: u32)
        ensures
            *final(self) == old(self).ticked(ticks),
    {
        self.m = ((self.m as u64 + (ticks / 4) as u64) % 0x10000) as u16;
        self.t = ((self.t as u64 + ticks as u64) % 0x10000) as u16;
    }
}

} // verus!
