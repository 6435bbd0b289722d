use vstd::prelude::*;

verus! {

/// Address of the serial data register.
pub const SERIAL_DATA: u16 = 0xFF01;

/// Address of the serial control register.
pub const SERIAL_CONTROL: u16 = 0xFF02;

/// The serial port, reduced to its two registers.
#[derive(Clone, Copy, Debug, PartialEq, Eq, Structural)]
pub struct Sdt {
    /// Whether bytes written to the data register are handed out as characters.
    pub enabled: bool,
    pub data: u8,
    pub control: u8,
}

impl Sdt {
    /// Whether `a` is one of the two serial registers.
    pub open spec fn handles(a: u16) -> bool {
        a == SERIAL_DATA || a == SERIAL_CONTROL
    }

    /// The value read at `a`.
    pub open spec fn spec_rb(&self, a: u16) -> u8 {
        if a == SERIAL_DATA {
            self.data
        } else {
            self.control
        }
    }

    /// The port after `v` was written at `a`.
    pub open spec fn written(self, a: u16, v: u8) -> Sdt {
        if a == SERIAL_DATA {
            Sdt { data: v, ..self }
        } else {
            Sdt { control: v, ..self }
        }
    }

    /// The byte that a write of `v` at `a` hands out as a character, if any.
    pub open spec fn emitted(self, a: u16, v: u8) -> Option<u8> {
        if a == SERIAL_DATA && self.enabled {
            Some(v)
        } else {
            None
        }
    }

    /// The port as it starts out: enabled, both registers zero.
    pub open spec fn initial() -> Sdt {
        Sdt { enabled: true, data: 0, control: 0 }
    }

    /// The port as it starts out.
    pub fn new() -> (sdt: Sdt)
        ensures
            sdt == Sdt::initial(),
    {
        Sdt { enabled: true, data: 0, control: 0 }
    }

    /// Writes `v` to the register at `a` and returns the byte to show as a
    /// character, which the caller may print.
    pub fn wb(&mut self, a: u16, v: u8) -> (out: Option<u8>)
        requires
            Sdt::handles(a),
        ensures
            *final(self) == old(self).written(a, v),
            out == old(self).emitted(a, v),
    {
        if a == SERIAL_DATA {
            self.data = v;
            if self.enabled {
                Some(v)
            } else {
                None
            }
        } else {
            self.control = v;
            None
        }
    }

    /// Reads the register at `a`.
    #[verifier::when_used_as_spec(spec_rb)]
    pub fn rb(&self, a: u16) -> (v: u8)
        requires
            Sdt::handles(a),
        ensures
            v == self.spec_rb(a),
    {
        if a == SERIAL_DATA {
            self.data
        } else {
            self.control
        }
    }
}

} // verus!
