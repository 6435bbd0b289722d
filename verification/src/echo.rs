use vstd::prelude::*;
use crate::word::{join, pair};

verus! {

/// Number of bytes of echo RAM.
pub const ECHO_SIZE: usize = 0x1E00;

/// Echo RAM: the store behind the window that starts at 0xE000 and repeats the start of working RAM.
pub struct Echo {
    data: Vec<u8>,
}

impl View for Echo {
    type V = Seq<u8>;

    closed spec fn view(&self) -> Seq<u8> {
        self.data@
    }
}

impl Echo {
    /// The region has its full size.
    pub open spec fn wf(&self) -> bool {
        self@.len() == ECHO_SIZE
    }

    /// A zeroed region.
    pub fn new() -> (echo: Echo)
        ensures
            echo.wf(),
            forall|i: int| 0 <= i < ECHO_SIZE ==> echo@[i] == 0,
    {
        Echo { data: vec![0u8; ECHO_SIZE] }
    }

    /// Reads the byte at `offset`.
    pub fn load8(&self, offset: u16) -> (value: u8)
        requires
            offset < self@.len(),
        ensures
            value == self@[offset as int],
    {
        self.data[offset as usize]
    }

    /// Reads two bytes, the low byte first.
    pub fn load16(&self, offset: u16) -> (value: u16)
        requires
            offset + 1 < self@.len(),
        ensures
            value == pair(self@[offset + 1], self@[offset as int]),
    {
        let at: usize = offset as usize;
        join(self.data[at + 1], self.data[at])
    }

    /// Writes the byte at `offset`.
    pub fn store8(&mut self, offset: u16, value: u8)
        requires
            offset < old(self)@.len(),
        ensures
            final(self)@ == old(self)@.update(offset as int, value),
    {
        self.data[offset as usize] = value;
    }
}

} // verus!
