use vstd::prelude::*;
use crate::echo::{Echo, ECHO_SIZE};
use crate::eram::{Eram, ERAM_SIZE};
use crate::error::{AccessKind, BusError};
use crate::hram::{Hram, HRAM_SIZE};
use crate::rom::Rom;
use crate::sdt::{Sdt, SERIAL_CONTROL, SERIAL_DATA};
use crate::timer::{Timer, TIMER_CONTROL, TIMER_DIVIDER};
use crate::word::{high, high_byte, join, low, low_byte, pair};
use crate::wram::{Wram, WRAM_SIZE};

verus! {

/// A window of the address space, given by its first and its last address.
#[derive(Clone, Copy, Debug, PartialEq, Eq, Structural)]
pub struct Range(pub u16, pub u16);

impl Range {
    /// The offset of `addr` from the start of the window, if the window holds it.
    pub open spec fn spec_contains(self, addr: u16) -> Option<u16> {
        if self.0 <= addr <= self.1 {
            Some((addr - self.0) as u16)
        } else {
            None
        }
    }

    /// Tells whether the window holds `addr`, and at which offset from its start.
    #[verifier::when_used_as_spec(spec_contains)]
    pub fn contains(self, addr: u16) -> (offset: Option<u16>)
        ensures
            offset == self.spec_contains(addr),
    {
        let Range(start, end) = self;
        if addr >= start && addr <= end {
            Some(addr - start)
        } else {
            None
        }
    }
}

/// First and last address of the fixed ROM window.
pub const ROM_START: u16 = 0x0000;

pub const ROM_END: u16 = 0x3FFF;

/// First and last address of the window of the switchable ROM bank.
pub const SROM_START: u16 = 0x4000;

pub const SROM_END: u16 = 0x7FFF;

/// First and last address of the video RAM window.
pub const VRAM_START: u16 = 0x8000;

pub const VRAM_END: u16 = 0x9FFF;

/// First and last address of the external RAM window.
pub const ERAM_START: u16 = 0xA000;

pub const ERAM_END: u16 = 0xBFFF;

/// First and last address of the working RAM window.
pub const WRAM_START: u16 = 0xC000;

pub const WRAM_END: u16 = 0xDFFF;

/// First and last address of the echo RAM window.
pub const ECHO_START: u16 = 0xE000;

pub const ECHO_END: u16 = 0xFDFF;

/// First and last address of the sprite table window.
pub const OAM_START: u16 = 0xFE00;

pub const OAM_END: u16 = 0xFE9F;

/// First and last address of the window that the hardware leaves unused.
pub const NV_START: u16 = 0xFEA0;

pub const NV_END: u16 = 0xFEFF;

/// First and last address of the I/O register window.
pub const IO_START: u16 = 0xFF00;

pub const IO_END: u16 = 0xFF7F;

/// First and last address of the high RAM window.
pub const HRAM_START: u16 = 0xFF80;

pub const HRAM_END: u16 = 0xFFFE;

/// Address of the interrupt-pending register.
pub const INTERRUPT_FLAG: u16 = 0xFF0F;

/// Address of the interrupt-enable register.
pub const INTERRUPT_ENABLE: u16 = 0xFFFF;

/// What answers at an address. Every address belongs to exactly one region.
#[derive(Clone, Copy, Debug, PartialEq, Eq, Structural)]
pub enum Region {
    /// The fixed ROM window.
    Rom,
    /// The switchable ROM window, served from the same image as the fixed one.
    RomBank,
    /// Video RAM: nothing answers.
    Vram,
    Eram,
    Wram,
    /// Echo RAM: a second view of the start of working RAM.
    Echo,
    /// The sprite table: nothing answers.
    Oam,
    /// The unused window: nothing answers.
    Unusable,
    /// The two serial registers.
    Serial,
    /// The four timer registers.
    Timer,
    /// The interrupt-pending register.
    InterruptFlag,
    /// Any other I/O register: reads zero, ignores writes.
    Io,
    Hram,
    /// The interrupt-enable register.
    InterruptEnable,
}

impl Region {
    /// The region that `addr` belongs to.
    pub open spec fn of(addr: u16) -> Region {
        if addr <= ROM_END {
            Region::Rom
        } else if addr <= SROM_END {
            Region::RomBank
        } else if addr <= VRAM_END {
            Region::Vram
        } else if addr <= ERAM_END {
            Region::Eram
        } else if addr <= WRAM_END {
            Region::Wram
        } else if addr <= ECHO_END {
            Region::Echo
        } else if addr <= OAM_END {
            Region::Oam
        } else if addr <= NV_END {
            Region::Unusable
        } else if Sdt::handles(addr) {
            Region::Serial
        } else if Timer::handles(addr) {
            Region::Timer
        } else if addr == INTERRUPT_FLAG {
            Region::InterruptFlag
        } else if addr <= IO_END {
            Region::Io
        } else if addr <= HRAM_END {
            Region::Hram
        } else {
            Region::InterruptEnable
        }
    }

    /// Whether a load from the region can be served at all.
    pub open spec fn readable(self) -> bool {
        !(self is Vram || self is Oam || self is Unusable)
    }

    /// Whether a store to the region is accepted.
    pub open spec fn writable(self) -> bool {
        !(self is Rom || self is RomBank || self is Vram || self is Oam || self is Unusable)
    }
}

/// The state of everything behind the bus, as plain values. Working RAM and
/// echo RAM are one store here: the echo window reads and writes `wram`.
pub struct Bus {
    pub rom: Seq<u8>,
    pub eram: Seq<u8>,
    pub wram: Seq<u8>,
    pub hram: Seq<u8>,
    pub sdt: Sdt,
    /// The characters that the serial port has handed out and nobody has collected yet.
    pub serial_out: Seq<u8>,
    pub timer: Timer,
    pub interrupt_enable: u8,
    pub interrupt_flag: u8,
}

impl Bus {
    /// Every RAM has its full size and the timer is well formed.
    pub open spec fn wf(self) -> bool {
        &&& self.eram.len() == ERAM_SIZE
        &&& self.wram.len() == WRAM_SIZE
        &&& self.hram.len() == HRAM_SIZE
        &&& self.timer.wf()
    }

    /// The error that a load at `addr` ends with, if it does.
    pub open spec fn load_fault(self, addr: u16) -> Option<BusError> {
        let region = Region::of(addr);
        if !region.readable() || ((region is Rom || region is RomBank) && addr >= self.rom.len()) {
            Some(BusError::Unmapped { address: addr, kind: AccessKind::Load })
        } else {
            None
        }
    }

    /// The error that a store at `addr` ends with, if it does.
    pub open spec fn store_fault(addr: u16) -> Option<BusError> {
        if Region::of(addr).writable() {
            None
        } else {
            Some(BusError::Unmapped { address: addr, kind: AccessKind::Store })
        }
    }

    /// The byte that a load at `addr` reads where the load is served.
    pub open spec fn peek(self, addr: u16) -> u8 {
        match Region::of(addr) {
            Region::Rom | Region::RomBank => self.rom[addr as int],
            Region::Eram => self.eram[addr - ERAM_START],
            Region::Wram => self.wram[addr - WRAM_START],
            Region::Echo => self.wram[addr - ECHO_START],
            Region::Hram => self.hram[addr - HRAM_START],
            Region::Serial => self.sdt.rb(addr),
            Region::Timer => self.timer.rb(addr),
            Region::InterruptFlag => self.interrupt_flag,
            Region::InterruptEnable => self.interrupt_enable,
            _ => 0,
        }
    }

    /// The result of loading one byte.
    pub open spec fn load8(self, addr: u16) -> Result<u8, BusError> {
        match self.load_fault(addr) {
            Some(e) => Err(e),
            None => Ok(self.peek(addr)),
        }
    }

    /// The result of loading two bytes, the low byte at `addr` and the high
    /// byte at the next address, which after 0xFFFF is 0x0000.
    pub open spec fn load16(self, addr: u16) -> Result<u16, BusError> {
        match self.load8(addr) {
            Err(e) => Err(e),
            Ok(lo) => match self.load8(addr.wrapping_add(1)) {
                Err(e) => Err(e),
                Ok(hi) => Ok(pair(hi, lo)),
            },
        }
    }

    /// The state after storing one byte. A store that ends with an error, or
    /// that goes to an I/O register which no device handles, changes nothing.
    pub open spec fn stored8(self, addr: u16, value: u8) -> Bus {
        match Region::of(addr) {
            Region::Eram => Bus { eram: self.eram.update(addr - ERAM_START, value), ..self },
            Region::Wram => Bus { wram: self.wram.update(addr - WRAM_START, value), ..self },
            Region::Echo => Bus { wram: self.wram.update(addr - ECHO_START, value), ..self },
            Region::Hram => Bus { hram: self.hram.update(addr - HRAM_START, value), ..self },
            Region::Serial => Bus {
                sdt: self.sdt.written(addr, value),
                serial_out: match self.sdt.emitted(addr, value) {
                    Some(byte) => self.serial_out.push(byte),
                    None => self.serial_out,
                },
                ..self
            },
            Region::Timer => Bus { timer: self.timer.written(addr, value), ..self },
            Region::InterruptFlag => Bus { interrupt_flag: value, ..self },
            Region::InterruptEnable => Bus { interrupt_enable: value, ..self },
            _ => self,
        }
    }

    /// The error that a store of two bytes at `addr` ends with, if it does:
    /// that of the first of the two addresses that accepts no store.
    pub open spec fn store16_fault(addr: u16) -> Option<BusError> {
        match Bus::store_fault(addr) {
            Some(e) => Some(e),
            None => Bus::store_fault(addr.wrapping_add(1)),
        }
    }

    /// The state after storing two bytes, the low byte at `addr` and the high
    /// byte at the next address. Where either address accepts no store, nothing changes.
    pub open spec fn stored16(self, addr: u16, value: u16) -> Bus {
        if Bus::store16_fault(addr) is Some {
            self
        } else {
            self.stored8(addr, low(value)).stored8(addr.wrapping_add(1), high(value))
        }
    }

    /// What there is to report about an access of the given kind at `addr`.
    pub open spec fn diagnosis(self, addr: u16, kind: AccessKind) -> Option<BusError> {
        let fault = match kind {
            AccessKind::Load => self.load_fault(addr),
            AccessKind::Store => Bus::store_fault(addr),
        };
        if fault is Some {
            fault
        } else if Region::of(addr) is Io {
            Some(BusError::UnimplementedRegister { address: addr })
        } else {
            None
        }
    }

    /// The state after `ticks` cycles: the timer has advanced, and the lines
    /// it raised have moved into the pending mask.
    pub open spec fn advanced(self, ticks: u32) -> Bus {
        let timer = self.timer.advanced(ticks);
        Bus {
            timer: Timer { interrupt: 0, ..timer },
            interrupt_flag: self.interrupt_flag | timer.interrupt,
            ..self
        }
    }
}

/// The address bus: it owns the memories and devices and routes every access
/// to the one that answers at the address.
pub struct Interconnect {
    rom: Rom,
    wram: Wram,
    echo: Echo,
    hram: Hram,
    eram: Eram,
    sdt: Sdt,
    timer: Timer,
    serial_out: Vec<u8>,
    interrupt_enable: u8,
    interrupt_flag: u8,
}

impl View for Interconnect {
    type V = Bus;

    closed spec fn view(&self) -> Bus {
        Bus {
            rom: self.rom@,
            eram: self.eram@,
            wram: self.wram@,
            hram: self.hram@,
            sdt: self.sdt,
            serial_out: self.serial_out@,
            timer: self.timer,
            interrupt_enable: self.interrupt_enable,
            interrupt_flag: self.interrupt_flag,
        }
    }
}

impl Interconnect {
    /// The state behind the bus is well formed, and echo RAM holds what the
    /// start of working RAM holds.
    pub open spec fn wf(&self) -> bool {
        self@.wf() && self.mirrored()
    }

    /// Echo RAM has its size and repeats the start of working RAM byte for byte.
    pub closed spec fn mirrored(&self) -> bool {
        &&& self.echo.wf()
        &&& forall|i: int| 0 <= i < ECHO_SIZE ==> self.echo@[i] == self.wram@[i]
    }

    /// A bus over the given cartridge image, with every RAM zeroed, the devices
    /// at rest and no interrupt line enabled or pending.
    pub fn new(rom: Rom) -> (bus: Interconnect)
        ensures
            bus.wf(),
            bus@.rom == rom@,
            bus@.sdt == Sdt::initial(),
            bus@.timer == Timer::initial(),
            bus@.serial_out.len() == 0,
            bus@.interrupt_enable == 0,
            bus@.interrupt_flag == 0,
            forall|i: int| 0 <= i < ERAM_SIZE ==> bus@.eram[i] == 0,
            forall|i: int| 0 <= i < WRAM_SIZE ==> bus@.wram[i] == 0,
            forall|i: int| 0 <= i < HRAM_SIZE ==> bus@.hram[i] == 0,
    {
        Interconnect {
            rom,
            wram: Wram::new(),
            echo: Echo::new(),
            hram: Hram::new(),
            eram: Eram::new(),
            sdt: Sdt::new(),
            timer: Timer::new(),
            serial_out: Vec::new(),
            interrupt_enable: 0,
            interrupt_flag: 0,
        }
    }

    /// The interrupt-enable mask.
    pub fn interrupt_enable(&self) -> (mask: u8)
        ensures
            mask == self@.interrupt_enable,
    {
        self.interrupt_enable
    }

    /// The interrupt-pending mask.
    pub fn interrupt_flag(&self) -> (mask: u8)
        ensures
            mask == self@.interrupt_flag,
    {
        self.interrupt_flag
    }

    /// Replaces the interrupt-enable mask.
    pub fn set_interrupt_enable(&mut self, mask: u8)
        requires
            old(self).wf(),
        ensures
            final(self).wf(),
            final(self)@ == (Bus { interrupt_enable: mask, ..old(self)@ }),
    {
        self.interrupt_enable = mask;
    }

    /// Replaces the interrupt-pending mask.
    pub fn set_interrupt_flag(&mut self, mask: u8)
        requires
            old(self).wf(),
        ensures
            final(self).wf(),
            final(self)@ == (Bus { interrupt_flag: mask, ..old(self)@ }),
    {
        self.interrupt_flag = mask;
    }

    /// Hands over the characters that the serial port has put out since the last call.
    pub fn take_serial_output(&mut self) -> (out: Vec<u8>)
        requires
            old(self).wf(),
        ensures
            final(self).wf(),
            out@ == old(self)@.serial_out,
            final(self)@ == (Bus { serial_out: Seq::empty(), ..old(self)@ }),
    {
        let mut out: Vec<u8> = Vec::new();
        std::mem::swap(&mut self.serial_out, &mut out);
        out
    }

    /// Lets `ticks` cycles pass for the devices on the bus.
    pub fn cycle(&mut self, ticks: u32)
        requires
            old(self).wf(),
        ensures
            final(self).wf(),
            final(self)@ == old(self)@.advanced(ticks),
    {
        self.timer.cycle(ticks);
        self.interrupt_flag = self.interrupt_flag | self.timer.interrupt;
        self.timer.interrupt = 0;
    }

    /// Loads the byte at `addr` from whatever answers there. An I/O register that
    /// no device handles reads zero; an address where nothing answers is an error.
    pub fn load8(&self, addr: u16) -> (value: Result<u8, BusError>)
        requires
            self.wf(),
        ensures
            value == self@.load8(addr),
    {
        if let Some(offset) = Range(ROM_START, SROM_END).contains(addr) {
            if (offset as usize) < self.rom.len() {
                return Ok(self.rom.load8(offset));
            }
            return Err(BusError::Unmapped { address: addr, kind: AccessKind::Load });
        }
        if let Some(offset) = Range(HRAM_START, HRAM_END).contains(addr) {
            return Ok(self.hram.load8(offset));
        }
        if let Some(offset) = Range(ERAM_START, ERAM_END).contains(addr) {
            return Ok(self.eram.load8(offset));
        }
        if let Some(offset) = Range(WRAM_START, WRAM_END).contains(addr) {
            return Ok(self.wram.load8(offset));
        }
        if let Some(offset) = Range(ECHO_START, ECHO_END).contains(addr) {
            return Ok(self.echo.load8(offset));
        }
        if addr == INTERRUPT_FLAG {
            return Ok(self.interrupt_flag);
        }
        if addr == INTERRUPT_ENABLE {
            return Ok(self.interrupt_enable);
        }
        if Range(IO_START, IO_END).contains(addr).is_some() {
            if addr == SERIAL_DATA || addr == SERIAL_CONTROL {
                return Ok(self.sdt.rb(addr));
            }
            if TIMER_DIVIDER <= addr && addr <= TIMER_CONTROL {
                return Ok(self.timer.rb(addr));
            }
            return Ok(0);
        }
        Err(BusError::Unmapped { address: addr, kind: AccessKind::Load })
    }

    /// Loads two bytes, the low byte at `addr` and the high byte at the next address.
    pub fn load16(&self, addr: u16) -> (value: Result<u16, BusError>)
        requires
            self.wf(),
        ensures
            value == self@.load16(addr),
    {
        let lo: u8 = match self.load8(addr) {
            Ok(byte) => byte,
            Err(e) => {
                return Err(e);
            },
        };
        let hi: u8 = match self.load8(addr.wrapping_add(1)) {
            Ok(byte) => byte,
            Err(e) => {
                return Err(e);
            },
        };
        Ok(join(hi, lo))
    }

    /// Tells whether a store at `addr` would be refused, without storing anything.
    pub fn store_fault(addr: u16) -> (fault: Option<BusError>)
        ensures
            fault == Bus::store_fault(addr),
    {
        if Range(ERAM_START, ECHO_END).contains(addr).is_some() || addr >= IO_START {
            None
        } else {
            Some(BusError::Unmapped { address: addr, kind: AccessKind::Store })
        }
    }

    /// Tells whether a store of two bytes at `addr` would be refused, without storing anything.
    pub fn store16_fault(addr: u16) -> (fault: Option<BusError>)
        ensures
            fault == Bus::store16_fault(addr),
    {
        match Interconnect::store_fault(addr) {
            Some(e) => Some(e),
            None => Interconnect::store_fault(addr.wrapping_add(1)),
        }
    }

    /// Stores a byte at `addr` to whatever answers there. A store through the
    /// working RAM window or the echo window reaches both. An I/O register that no
    /// device handles drops the byte; ROM and the addresses where nothing answers
    /// refuse it.
    pub fn store8(&mut self, addr: u16, value: u8) -> (done: Result<(), BusError>)
        requires
            old(self).wf(),
        ensures
            final(self).wf(),
            final(self)@ == old(self)@.stored8(addr, value),
            match Bus::store_fault(addr) {
                Some(e) => done == Err::<(), BusError>(e),
                None => done is Ok,
            },
    {
        if let Some(offset) = Range(WRAM_START, WRAM_END).contains(addr) {
            if (offset as usize) < ECHO_SIZE {
                self.echo.store8(offset, value);
            }
            self.wram.store8(offset, value);
            return Ok(());
        }
        if let Some(offset) = Range(ECHO_START, ECHO_END).contains(addr) {
            self.wram.store8(offset, value);
            self.echo.store8(offset, value);
            return Ok(());
        }
        if let Some(offset) = Range(ERAM_START, ERAM_END).contains(addr) {
            self.eram.store8(offset, value);
            return Ok(());
        }
        if let Some(offset) = Range(HRAM_START, HRAM_END).contains(addr) {
            self.hram.store8(offset, value);
            return Ok(());
        }
        if addr == INTERRUPT_FLAG {
            self.interrupt_flag = value;
            return Ok(());
        }
        if addr == INTERRUPT_ENABLE {
            self.interrupt_enable = value;
            return Ok(());
        }
        if Range(IO_START, IO_END).contains(addr).is_some() {
            if addr == SERIAL_DATA || addr == SERIAL_CONTROL {
                if let Some(byte) = self.sdt.wb(addr, value) {
                    self.serial_out.push(byte);
                }
            } else if TIMER_DIVIDER <= addr && addr <= TIMER_CONTROL {
                self.timer.wb(addr, value);
            }
            return Ok(());
        }
        Err(BusError::Unmapped { address: addr, kind: AccessKind::Store })
    }

    /// Stores two bytes, or neither where one of the two addresses accepts no store.
    pub fn store16(&mut self, addr: u16, value: u16) -> (done: Result<(), BusError>)
        requires
            old(self).wf(),
        ensures
            final(self).wf(),
            final(self)@ == old(self)@.stored16(addr, value),
            match Bus::store16_fault(addr) {
                Some(e) => done == Err::<(), BusError>(e),
                None => done is Ok,
            },
    {
        if let Some(e) = Interconnect::store16_fault(addr) {
            return Err(e);
        }
        let _ = self.store8(addr, low_byte(value));
        let _ = self.store8(addr.wrapping_add(1), high_byte(value));
        Ok(())
    }

    /// Says what there is to report about an access at `addr`: an error that
    /// ends the run, a register that no device handles, or nothing.
    pub fn probe(&self, addr: u16, kind: AccessKind) -> (report: Option<BusError>)
        requires
            self.wf(),
        ensures
            report == self@.diagnosis(addr, kind),
    {
        let fault: Option<BusError> = match kind {
            AccessKind::Load => match self.load8(addr) {
                Ok(_) => None,
                Err(e) => Some(e),
            },
            AccessKind::Store => Interconnect::store_fault(addr),
        };
        if fault.is_some() {
            return fault;
        }
        if Range(IO_START, IO_END).contains(addr).is_some() && addr != INTERRUPT_FLAG
            && addr != SERIAL_DATA && addr != SERIAL_CONTROL && !(TIMER_DIVIDER <= addr && addr
            <= TIMER_CONTROL) {
            return Some(BusError::UnimplementedRegister { address: addr });
        }
        None
    }
}

} // verus!
