use vstd::prelude::*;
use crate::word::{join, pair};

verus! {

/// Number of bytes of working RAM.
pub const WRAM_SIZE: usize = 0x2000;

/// Working RAM: the read-write memory behind the window that starts at 0xC000.
pub struct Wram {
    data: Vec<u8>,
}

impl View for Wram {
    type V = Seq<u8>;

    closed spec fn view(&self) -> Seq<u8> {
        self.data@
    }
}

impl Wram {
    /// The region has its full size.
    pub open spec fn wf(&self) -> bool {
        self@.len() == WRAM_SIZE
    }

    /// A zeroed region.
    pub fn new() -> (wram: Wram)
        ensures
            wram.wf(),
            forall|i: int| 0 <= i < WRAM_SIZE ==> wram@[i] == 0,
    {
        Wram { data: vec![0u8; WRAM_SIZE] }
    }

    /// Reads the byte at `offset`.
    pub fn load8(&self, offset: u16) -> (value: u8)
        requires
            offset < self@.len(),
        ensures
            value == self@[offset as int],
    {
        self.data[offset as usize]
    }

    /// Reads two bytes, the low byte first.
    pub fn load16(&self, offset: u16) -> (value: u16)
        requires
            offset + 1 < self@.len(),
        ensures
            value == pair(self@[offset + 1], self@[offset as int]),
    {
        let at: usize = offset as usize;
        join(self.data[at + 1], self.data[at])
    }

    /// Writes the byte at `offset`.
    pub fn store8(&mut self, offset: u16, value: u8)
        requires
            offset < old(self)@.len(),
        ensures
            final(self)@ == old(self)@.update(offset as int, value),
    {
        self.data[offset as usize] = value;
    }
}

} // verus!
