use vstd::prelude::*;
use crate::word::{join, pair};

verus! {

/// The cartridge image: a flat, read-only sequence of bytes.
pub struct Rom {
    data: Vec<u8>,
}

impl View for Rom {
    type V = Seq<u8>;

    closed spec fn view(&self) -> Seq<u8> {
        self.data@
    }
}

impl Rom {
    /// Wraps an image that has already been read into memory.
    pub fn new(data: Vec<u8>) -> (rom: Rom)
        ensures
            rom@ == data@,
    {
        Rom { data }
    }

    /// Number of bytes in the image.
    pub fn len(&self) -> (n: usize)
        ensures
            n == self@.len(),
    {
        self.data.len()
    }

    /// Reads the byte at `offset`.
    pub fn load8(&self, offset: u16) -> (value: u8)
        requires
            offset < self@.len(),
        ensures
            value == self@[offset as int],
    {
        self.data[offset as usize]
    }

    /// Reads two bytes, the low byte first.
    pub fn load16(&self, offset: u16) -> (value: u16)
        requires
            offset + 1 < self@.len(),
        ensures
            value == pair(self@[offset + 1], self@[offset as int]),
    {
        let at: usize = offset as usize;
        join(self.data[at + 1], self.data[at])
    }
}

} // verus!
