use vstd::prelude::*;
use crate::opcode::{Reg16, Reg8, StackPair};
use crate::word::{high, high_byte, join, low, low_byte, pair};

verus! {

/// The four condition bits of the flag register.
#[derive(Clone, Copy, Debug, PartialEq, Eq, Structural)]
pub struct Flag {
    /// Zero: bit 7 of the flag byte.
    pub z: bool,
    /// Subtract: bit 6.
    pub n: bool,
    /// Half-carry: bit 5.
    pub h: bool,
    /// Carry: bit 4.
    pub c: bool,
}

impl Flag {
    /// All four bits clear.
    pub fn new() -> (flag: Flag)
        ensures
            flag == (Flag { z: false, n: false, h: false, c: false }),
    {
        Flag { z: false, n: false, h: false, c: false }
    }

    /// The flag byte: the four bits in its upper nibble, the lower nibble zero.
    pub open spec fn byte(&self) -> u8 {
        ((if self.z { 128int } else { 0 })
            + (if self.n { 64int } else { 0 })
            + (if self.h { 32int } else { 0 })
            + (if self.c { 16int } else { 0 })) as u8
    }

    /// The flags held in the upper nibble of a byte; the lower nibble is ignored.
    pub open spec fn of_byte(value: u8) -> Flag {
        Flag {
            z: (value / 128) % 2 == 1,
            n: (value / 64) % 2 == 1,
            h: (value / 32) % 2 == 1,
            c: (value / 16) % 2 == 1,
        }
    }

    /// The flag byte.
    #[verifier::when_used_as_spec(byte)]
    pub fn to_byte(&self) -> (value: u8)
        ensures
            value == self.byte(),
            value % 16 == 0,
    {
        let z: u8 = if self.z { 128 } else { 0 };
        let n: u8 = if self.n { 64 } else { 0 };
        let h: u8 = if self.h { 32 } else { 0 };
        let c: u8 = if self.c { 16 } else { 0 };
        z + n + h + c
    }

    /// The flags that the upper nibble of `value` holds.
    #[verifier::when_used_as_spec(of_byte)]
    pub fn from_byte(value: u8) -> (flag: Flag)
        ensures
            flag == Flag::of_byte(value),
            flag.byte() == value - value % 16,
    {
        Flag {
            z: (value / 128) % 2 == 1,
            n: (value / 64) % 2 == 1,
            h: (value / 32) % 2 == 1,
            c: (value / 16) % 2 == 1,
        }
    }
}

/// The register file: seven 8-bit registers, the flags, and the two 16-bit pointers.
#[derive(Clone, Copy, Debug, PartialEq, Eq, Structural)]
pub struct Register {
    pub a: u8,
    pub b: u8,
    pub c: u8,
    pub d: u8,
    pub e: u8,
    pub h: u8,
    pub l: u8,
    /// Program counter.
    pub pc: u16,
    /// Stack pointer.
    pub sp: u16,
    pub flag: Flag,
}

impl Register {
    /// The register file as it stands when the machine is switched on.
    pub open spec fn power_on() -> Register {
        Register {
            a: 0x01,
            b: 0x00,
            c: 0x13,
            d: 0x00,
            e: 0xd8,
            h: 0x01,
            l: 0x4d,
            pc: 0x0100,
            sp: 0xfffe,
            flag: Flag { z: true, n: false, h: true, c: true },
        }
    }

    /// The pair `af`: `a` is the high byte, the flag byte the low byte.
    pub open spec fn spec_af(&self) -> u16 {
        pair(self.a, self.flag.byte())
    }

    /// The pair `bc`: `b` is the high byte.
    pub open spec fn spec_bc(&self) -> u16 {
        pair(self.b, self.c)
    }

    /// The pair `de`: `d` is the high byte.
    pub open spec fn spec_de(&self) -> u16 {
        pair(self.d, self.e)
    }

    /// The pair `hl`: `h` is the high byte.
    pub open spec fn spec_hl(&self) -> u16 {
        pair(self.h, self.l)
    }

    /// The register file with `a` and the flags taken from `value`.
    pub open spec fn with_af(self, value: u16) -> Register {
        Register { a: high(value), flag: Flag::of_byte(low(value)), ..self }
    }

    /// The register file with `b` and `c` taken from `value`.
    pub open spec fn with_bc(self, value: u16) -> Register {
        Register { b: high(value), c: low(value), ..self }
    }

    /// The register file with `d` and `e` taken from `value`.
    pub open spec fn with_de(self, value: u16) -> Register {
        Register { d: high(value), e: low(value), ..self }
    }

    /// The register file with `h` and `l` taken from `value`.
    pub open spec fn with_hl(self, value: u16) -> Register {
        Register { h: high(value), l: low(value), ..self }
    }

    /// The register file at power on.
    pub fn new() -> (register: Register)
        ensures
            register == Register::power_on(),
            register.spec_af() == 0x01b0,
            register.spec_bc() == 0x0013,
            register.spec_de() == 0x00d8,
            register.spec_hl() == 0x014d,
    {
        Register {
            a: 0x01,
            b: 0x00,
            c: 0x13,
            d: 0x00,
            e: 0xd8,
            h: 0x01,
            l: 0x4d,
            pc: 0x0100,
            sp: 0xfffe,
            flag: Flag { z: true, n: false, h: true, c: true },
        }
    }

    /// The flag byte.
    pub fn f(&self) -> (value: u8)
        ensures
            value == self.flag.byte(),
            value % 16 == 0,
    {
        self.flag.to_byte()
    }

    /// Reads the pair `af`. Its low nibble is always zero.
    #[verifier::when_used_as_spec(spec_af)]
    pub fn af(&self) -> (value: u16)
        ensures
            value == self.spec_af(),
            value % 16 == 0,
    {
        join(self.a, self.flag.to_byte())
    }

    /// Reads the pair `bc`.
    #[verifier::when_used_as_spec(spec_bc)]
    pub fn bc(&self) -> (value: u16)
        ensures
            value == self.spec_bc(),
    {
        join(self.b, self.c)
    }

    /// Reads the pair `de`.
    #[verifier::when_used_as_spec(spec_de)]
    pub fn de(&self) -> (value: u16)
        ensures
            value == self.spec_de(),
    {
        join(self.d, self.e)
    }

    /// Reads the pair `hl`.
    #[verifier::when_used_as_spec(spec_hl)]
    pub fn hl(&self) -> (value: u16)
        ensures
            value == self.spec_hl(),
    {
        join(self.h, self.l)
    }

    /// Writes the pair `af`. The low nibble of `value` is dropped.
    pub fn set_af(&mut self, value: u16)
        ensures
            *final(self) == old(self).with_af(value),
            final(self).spec_af() == value - value % 16,
    {
        self.a = high_byte(value);
        self.flag = Flag::from_byte(low_byte(value));
    }

    /// Writes the pair `bc`.
    pub fn set_bc(&mut self, value: u16)
        ensures
            *final(self) == old(self).with_bc(value),
            final(self).spec_bc() == value,
    {
        self.b = high_byte(value);
        self.c = low_byte(value);
    }

    /// Writes the pair `de`.
    pub fn set_de(&mut self, value: u16)
        ensures
            *final(self) == old(self).with_de(value),
            final(self).spec_de() == value,
    {
        self.d = high_byte(value);
        self.e = low_byte(value);
    }

    /// Writes the pair `hl`.
    pub fn set_hl(&mut self, value: u16)
        ensures
            *final(self) == old(self).with_hl(value),
            final(self).spec_hl() == value,
    {
        self.h = high_byte(value);
        self.l = low_byte(value);
    }

    /// The value of one 8-bit register.
    pub open spec fn get(&self, r: Reg8) -> u8 {
        match r {
            Reg8::A => self.a,
            Reg8::B => self.b,
            Reg8::C => self.c,
            Reg8::D => self.d,
            Reg8::E => self.e,
            Reg8::H => self.h,
            Reg8::L => self.l,
        }
    }

    /// The register file with one 8-bit register set to `value`.
    pub open spec fn with(self, r: Reg8, value: u8) -> Register {
        match r {
            Reg8::A => Register { a: value, ..self },
            Reg8::B => Register { b: value, ..self },
            Reg8::C => Register { c: value, ..self },
            Reg8::D => Register { d: value, ..self },
            Reg8::E => Register { e: value, ..self },
            Reg8::H => Register { h: value, ..self },
            Reg8::L => Register { l: value, ..self },
        }
    }

    /// The register file with one 16-bit register set to `value`.
    pub open spec fn with_wide(self, rr: Reg16, value: u16) -> Register {
        match rr {
            Reg16::Bc => self.with_bc(value),
            Reg16::De => self.with_de(value),
            Reg16::Hl => self.with_hl(value),
            Reg16::Sp => Register { sp: value, ..self },
        }
    }

    /// The value of a register pair as it is pushed.
    pub open spec fn spec_pushed(&self, rr: StackPair) -> u16 {
        match rr {
            StackPair::Bc => self.spec_bc(),
            StackPair::De => self.spec_de(),
            StackPair::Hl => self.spec_hl(),
            StackPair::Af => self.spec_af(),
        }
    }

    /// The register file with the program counter at `pc`.
    pub open spec fn at(self, pc: u16) -> Register {
        Register { pc, ..self }
    }

    /// Reads one 8-bit register.
    #[verifier::when_used_as_spec(get)]
    pub fn read(&self, r: Reg8) -> (value: u8)
        ensures
            value == self.get(r),
    {
        match r {
            Reg8::A => self.a,
            Reg8::B => self.b,
            Reg8::C => self.c,
            Reg8::D => self.d,
            Reg8::E => self.e,
            Reg8::H => self.h,
            Reg8::L => self.l,
        }
    }

    /// Writes one 8-bit register.
    pub fn write(&mut self, r: Reg8, value: u8)
        ensures
            *final(self) == old(self).with(r, value),
    {
        match r {
            Reg8::A => {
                self.a = value;
            },
            Reg8::B => {
                self.b = value;
            },
            Reg8::C => {
                self.c = value;
            },
            Reg8::D => {
                self.d = value;
            },
            Reg8::E => {
                self.e = value;
            },
            Reg8::H => {
                self.h = value;
            },
            Reg8::L => {
                self.l = value;
            },
        }
    }

    /// Writes one 16-bit register.
    pub fn write_wide(&mut self, rr: Reg16, value: u16)
        ensures
            *final(self) == old(self).with_wide(rr, value),
    {
        match rr {
            Reg16::Bc => self.set_bc(value),
            Reg16::De => self.set_de(value),
            Reg16::Hl => self.set_hl(value),
            Reg16::Sp => {
                self.sp = value;
            },
        }
    }

    /// Reads a register pair as it is pushed.
    #[verifier::when_used_as_spec(spec_pushed)]
    pub fn pushed(&self, rr: StackPair) -> (value: u16)
        ensures
            value == self.spec_pushed(rr),
    {
        match rr {
            StackPair::Bc => self.bc(),
            StackPair::De => self.de(),
            StackPair::Hl => self.hl(),
            StackPair::Af => self.af(),
        }
    }
}

} // verus!
