use vstd::prelude::*;

verus! {

/// The direction of a bus access.
#[derive(Clone, Copy, Debug, PartialEq, Eq, Structural)]
pub enum AccessKind {
    Load,
    Store,
}

/// What the bus has to say about an address it cannot fully serve.
#[derive(Clone, Copy, Debug, PartialEq, Eq, Structural)]
pub enum BusError {
    /// No window of the address space answers at `address`. This ends the run.
    Unmapped { address: u16, kind: AccessKind },
    /// `address` is an I/O register that no device handles: loads read zero and
    /// stores are dropped. This does not end the run.
    UnimplementedRegister { address: u16 },
}

/// Why a byte could not be turned into an operation.
#[derive(Clone, Copy, Debug, PartialEq, Eq, Structural)]
pub enum DecodeError {
    /// The operation table has no entry for `byte`, fetched at `pc`.
    UnknownOpcode { byte: u8, pc: u16 },
    /// The byte selects the extended operation page, which is not provided.
    UnsupportedPrefix,
}

/// A condition that ends the run.
#[derive(Clone, Copy, Debug, PartialEq, Eq, Structural)]
pub enum Fault {
    Decode(DecodeError),
    Bus(BusError),
    /// The lowest line that is both enabled and pending is not one of the five defined lines.
    InvalidInterruptLine { n: u8 },
}

} // verus!
