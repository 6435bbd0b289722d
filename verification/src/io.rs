use vstd::prelude::*;
use crate::word::{join, pair};

verus! {

/// Number of I/O register slots.
pub const IO_SIZE: usize = 0x80;

/// A plain byte store as wide as the I/O register window that starts at 0xFF00.
pub struct IO {
    data: Vec<u8>,
}

impl View for IO {
    type V = Seq<u8>;

    closed spec fn view(&self) -> Seq<u8> {
        self.data@
    }
}

impl IO {
    /// The region has its full size.
    pub open spec fn wf(&self) -> bool {
        self@.len() == IO_SIZE
    }

    /// A zeroed region.
    pub fn new() -> (io: IO)
        ensures
            io.wf(),
            forall|i: int| 0 <= i < IO_SIZE ==> io@[i] == 0,
    {
        IO { data: vec![0u8; IO_SIZE] }
    }

    /// Reads the byte at `offset`.
    pub fn load8(&self, offset: u16) -> (value: u8)
        requires
            offset < self@.len(),
        ensures
            value == self@[offset as int],
    {
        self.data[offset as usize]
    }

    /// Reads two bytes, the low byte first.
    pub fn load16(&self, offset: u16) -> (value: u16)
        requires
            offset + 1 < self@.len(),
        ensures
            value == pair(self@[offset + 1], self@[offset as int]),
    {
        let at: usize = offset as usize;
        join(self.data[at + 1], self.data[at])
    }

    /// Writes the byte at `offset`.
    pub fn store8(&mut self, offset: u16, value: u8)
        requires
            offset < old(self)@.len(),
        ensures
            final(self)@ == old(self)@.update(offset as int, value),
    {
        self.data[offset as usize] = value;
    }
}

} // verus!
