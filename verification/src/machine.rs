use vstd::prelude::*;
use vstd::std_specs::bits::u8_trailing_zeros;
use crate::alu::{add8, holds, relative, sub8, xor8};
use crate::clock::Clock;
use crate::error::{BusError, Fault};
use crate::interconnect::Bus;
use crate::opcode::{Opcode, Operand, Reg8};
use crate::register::Register;
use crate::timer::Timer;

verus! {

/// Cycles that the dispatch of an interrupt takes.
pub const DISPATCH_CYCLES: u32 = 20;

/// Cycles that pass in a step in which the processor stays halted.
pub const IDLE_CYCLES: u32 = 4;

/// Number of interrupt lines.
pub const LINES: u32 = 5;

/// The address that the processor jumps to when it serves interrupt line `n`.
pub open spec fn vector(n: u32) -> u16 {
    (0x0040 + 8 * n) as u16
}

/// The address of the I/O register that the byte `n` selects.
pub open spec fn io_address(n: u8) -> u16 {
    (0xFF00 + n) as u16
}

/// The whole machine as plain values: the processor's state and everything
/// behind the bus. What the processor does is stated as functions from one
/// such value to the next.
pub struct Machine {
    pub register: Register,
    pub halted: bool,
    /// The master interrupt-enable flag.
    pub ime: bool,
    /// Steps left until a requested disable of the master flag takes effect, or zero.
    pub set_di: u8,
    /// Steps left until a requested enable of the master flag takes effect, or zero.
    pub set_ei: u8,
    pub clock: Clock,
    pub bus: Bus,
}

/// What a step or a part of it comes to: the next machine and what the part
/// reports, or the fault that ended it. A part that ends with a fault leaves
/// the machine as it found it.
pub type Outcome<T> = Result<(Machine, T), Fault>;

/// Whether a call that began with the machine `before`, ended with the machine
/// `after` and returned `result` did what `outcome` says.
pub open spec fn realizes<T>(
    before: Machine,
    after: Machine,
    result: Result<T, Fault>,
    outcome: Outcome<T>,
) -> bool {
    match outcome {
        Ok((next, value)) => after == next && result == Ok::<T, Fault>(value),
        Err(fault) => after == before && result == Err::<T, Fault>(fault),
    }
}

impl Machine {
    /// The state behind the bus is well formed.
    pub open spec fn wf(self) -> bool {
        self.bus.wf()
    }

    /// The machine with another register file.
    pub open spec fn with(self, register: Register) -> Machine {
        Machine { register, ..self }
    }

    /// The machine after one step of the two countdowns. A countdown at two
    /// goes to one; a countdown at one runs out and sets the master flag, the
    /// disable before the enable.
    pub open spec fn ime_updated(self) -> Machine {
        let disabled = if self.set_di == 1 {
            false
        } else {
            self.ime
        };
        Machine {
            ime: if self.set_ei == 1 {
                true
            } else {
                disabled
            },
            set_di: if self.set_di == 2 {
                1
            } else {
                0
            },
            set_ei: if self.set_ei == 2 {
                1
            } else {
                0
            },
            ..self
        }
    }

    /// The lines that are both enabled and pending.
    pub open spec fn lines(self) -> u8 {
        self.bus.interrupt_enable & self.bus.interrupt_flag
    }

    /// What looking after the interrupts comes to, with the address that the
    /// processor was sent to if a line was served.
    ///
    /// Nothing happens unless a line is both enabled and pending, and the
    /// processor is halted or has the master flag set. A halted processor then
    /// runs again. With the master flag set, the lowest such line is served:
    /// its pending bit and the master flag are cleared, the program counter is
    /// pushed, and the processor goes to the line's vector.
    pub open spec fn interrupt(self) -> Outcome<Option<u16>> {
        let lines = self.lines();
        let n = u8_trailing_zeros(lines);
        let sp = self.register.sp.wrapping_sub(2);
        if lines == 0 || (!self.ime && !self.halted) {
            Ok((self, None))
        } else if !self.ime {
            Ok((Machine { halted: false, ..self }, None))
        } else if n >= LINES {
            Err(Fault::InvalidInterruptLine { n: n as u8 })
        } else if let Some(e) = Bus::store16_fault(sp) {
            Err(Fault::Bus(e))
        } else {
            Ok(
                (
                    Machine {
                        halted: false,
                        ime: false,
                        register: Register { sp, pc: vector(n), ..self.register },
                        bus: (Bus {
                            interrupt_flag: self.bus.interrupt_flag & !(1u8 << n),
                            ..self.bus
                        }).stored16(sp, self.register.pc),
                        ..self
                    },
                    Some(vector(n)),
                ),
            )
        }
    }

    /// The byte that an operation works on.
    pub open spec fn operand(self, x: Operand) -> Result<u8, BusError> {
        match x {
            Operand::Reg(r) => Ok(self.register.get(r)),
            Operand::Memory => self.bus.load8(self.register.spec_hl()),
            Operand::Immediate => self.bus.load8(self.register.pc),
        }
    }

    /// The program counter after the operand was taken.
    pub open spec fn past(self, x: Operand) -> u16 {
        if x is Immediate {
            self.register.pc.wrapping_add(1)
        } else {
            self.register.pc
        }
    }

    /// Stores a byte and goes on with `register`.
    pub open spec fn store(self, addr: u16, value: u8, register: Register, ticks: u32) -> Outcome<
        u32,
    > {
        match Bus::store_fault(addr) {
            Some(e) => Err(Fault::Bus(e)),
            None => Ok((Machine { register, bus: self.bus.stored8(addr, value), ..self }, ticks)),
        }
    }

    /// Pushes `value`: the stack pointer goes down by two, going round at
    /// zero, and the value is stored there, low byte first. Then goes on at `pc`.
    pub open spec fn push(self, value: u16, pc: u16, ticks: u32) -> Outcome<u32> {
        let sp = self.register.sp.wrapping_sub(2);
        match Bus::store16_fault(sp) {
            Some(e) => Err(Fault::Bus(e)),
            None => Ok(
                (
                    Machine {
                        register: Register { sp, pc, ..self.register },
                        bus: self.bus.stored16(sp, value),
                        ..self
                    },
                    ticks,
                ),
            ),
        }
    }

    /// Returns: the program counter is loaded from the stack pointer, which
    /// goes up by two, going round at the top.
    pub open spec fn ret(self, ticks: u32) -> Outcome<u32> {
        match self.bus.load16(self.register.sp) {
            Err(e) => Err(Fault::Bus(e)),
            Ok(pc) => Ok(
                (
                    self.with(
                        Register { pc, sp: self.register.sp.wrapping_add(2), ..self.register },
                    ),
                    ticks,
                ),
            ),
        }
    }

    /// What carrying out `op` comes to, with the cycles it took. The program
    /// counter stands behind the operation byte, at the first immediate byte
    /// if the operation has any.
    pub open spec fn execute(self, op: Opcode) -> Outcome<u32> {
        let r = self.register;
        let pc = r.pc;
        let ticks = op.spec_cycles(false);
        match op {
            Opcode::Nop => Ok((self, ticks)),
            Opcode::LdWide(rr) => match self.bus.load16(pc) {
                Err(e) => Err(Fault::Bus(e)),
                Ok(nn) => Ok((self.with(r.with_wide(rr, nn).at(pc.wrapping_add(2))), ticks)),
            },
            Opcode::Ld(to, from) => Ok((self.with(r.with(to, r.get(from))), ticks)),
            Opcode::LdFromHl(to) => match self.bus.load8(r.spec_hl()) {
                Err(e) => Err(Fault::Bus(e)),
                Ok(value) => Ok((self.with(r.with(to, value)), ticks)),
            },
            Opcode::LdAImmediate => match self.bus.load8(pc) {
                Err(e) => Err(Fault::Bus(e)),
                Ok(value) => Ok((self.with(r.with(Reg8::A, value).at(pc.wrapping_add(1))), ticks)),
            },
            Opcode::LdAFromBc => match self.bus.load8(r.spec_bc()) {
                Err(e) => Err(Fault::Bus(e)),
                Ok(value) => Ok((self.with(r.with(Reg8::A, value)), ticks)),
            },
            Opcode::LdAFromDe => match self.bus.load8(r.spec_de()) {
                Err(e) => Err(Fault::Bus(e)),
                Ok(value) => Ok((self.with(r.with(Reg8::A, value)), ticks)),
            },
            Opcode::LdAFromAddress => match self.bus.load16(pc) {
                Err(e) => Err(Fault::Bus(e)),
                Ok(addr) => match self.bus.load8(addr) {
                    Err(e) => Err(Fault::Bus(e)),
                    Ok(value) => Ok(
                        (self.with(r.with(Reg8::A, value).at(pc.wrapping_add(2))), ticks),
                    ),
                },
            },
            Opcode::LdhToA => match self.bus.load8(pc) {
                Err(e) => Err(Fault::Bus(e)),
                Ok(n) => match self.bus.load8(io_address(n)) {
                    Err(e) => Err(Fault::Bus(e)),
                    Ok(value) => Ok(
                        (self.with(r.with(Reg8::A, value).at(pc.wrapping_add(1))), ticks),
                    ),
                },
            },
            Opcode::LdToHl(from) => self.store(r.spec_hl(), r.get(from), r, ticks),
            Opcode::LdHlImmediate => match self.bus.load8(pc) {
                Err(e) => Err(Fault::Bus(e)),
                Ok(n) => self.store(r.spec_hl(), n, r.at(pc.wrapping_add(1)), ticks),
            },
            Opcode::LdBcFromA => self.store(r.spec_bc(), r.a, r, ticks),
            Opcode::LdDeFromA => self.store(r.spec_de(), r.a, r, ticks),
            Opcode::LdAddressFromA => match self.bus.load16(pc) {
                Err(e) => Err(Fault::Bus(e)),
                Ok(addr) => self.store(addr, r.a, r.at(pc.wrapping_add(2)), ticks),
            },
            Opcode::LdhFromA => match self.bus.load8(pc) {
                Err(e) => Err(Fault::Bus(e)),
                Ok(n) => self.store(io_address(n), r.a, r.at(pc.wrapping_add(1)), ticks),
            },
            Opcode::Add(x) => match self.operand(x) {
                Err(e) => Err(Fault::Bus(e)),
                Ok(value) => Ok(
                    (
                        self.with(
                            Register {
                                a: add8(r.a, value).0,
                                flag: add8(r.a, value).1,
                                pc: self.past(x),
                                ..r
                            },
                        ),
                        ticks,
                    ),
                ),
            },
            Opcode::Sub(x) => match self.operand(x) {
                Err(e) => Err(Fault::Bus(e)),
                Ok(value) => Ok(
                    (
                        self.with(
                            Register {
                                a: sub8(r.a, value).0,
                                flag: sub8(r.a, value).1,
                                pc: self.past(x),
                                ..r
                            },
                        ),
                        ticks,
                    ),
                ),
            },
            Opcode::Xor(x) => match self.operand(x) {
                Err(e) => Err(Fault::Bus(e)),
                Ok(value) => Ok(
                    (
                        self.with(
                            Register {
                                a: xor8(r.a, value).0,
                                flag: xor8(r.a, value).1,
                                pc: self.past(x),
                                ..r
                            },
                        ),
                        ticks,
                    ),
                ),
            },
            Opcode::Cp(x) => match self.operand(x) {
                Err(e) => Err(Fault::Bus(e)),
                Ok(value) => Ok(
                    (self.with(Register { flag: sub8(r.a, value).1, pc: self.past(x), ..r }), ticks),
                ),
            },
            Opcode::Push(rr) => self.push(r.spec_pushed(rr), pc, ticks),
            Opcode::Call => match self.bus.load16(pc) {
                Err(e) => Err(Fault::Bus(e)),
                Ok(nn) => self.push(pc.wrapping_add(2), nn, ticks),
            },
            Opcode::Rst(v) => self.push(pc, v.spec_address(), ticks),
            Opcode::Ret => self.ret(ticks),
            Opcode::RetIf(cc) => if holds(cc, r.flag) {
                self.ret(op.spec_cycles(true))
            } else {
                Ok((self, ticks))
            },
            Opcode::JrIf(cc) => if holds(cc, r.flag) {
                match self.bus.load8(pc) {
                    Err(e) => Err(Fault::Bus(e)),
                    Ok(n) => Ok(
                        (self.with(r.at(relative(pc.wrapping_add(1), n))), op.spec_cycles(true)),
                    ),
                }
            } else {
                Ok((self.with(r.at(pc.wrapping_add(1))), ticks))
            },
            Opcode::JpAddress => match self.bus.load16(pc) {
                Err(e) => Err(Fault::Bus(e)),
                Ok(nn) => Ok((self.with(r.at(nn)), ticks)),
            },
            Opcode::JpHl => Ok((self.with(r.at(r.spec_hl())), ticks)),
            Opcode::Di => Ok((Machine { set_di: 2, ..self }, ticks)),
            Opcode::Ei => Ok((Machine { set_ei: 2, ..self }, ticks)),
            Opcode::Halt => Ok((Machine { halted: true, ..self }, ticks)),
        }
    }

    /// What carrying out the operation whose byte is `instruction` comes to.
    /// The program counter stands behind the byte, so the byte was fetched
    /// one address before it.
    pub open spec fn decode(self, instruction: u8) -> Outcome<u32> {
        match Opcode::decoded(instruction, self.register.pc.wrapping_sub(1)) {
            Err(e) => Err(Fault::Decode(e)),
            Ok(op) => self.execute(op),
        }
    }

    /// What fetching and carrying out the operation at the program counter comes to.
    pub open spec fn run(self) -> Outcome<u32> {
        let pc = self.register.pc;
        match self.bus.load8(pc) {
            Err(e) => Err(Fault::Bus(e)),
            Ok(instruction) => self.with(self.register.at(pc.wrapping_add(1))).decode(instruction),
        }
    }

    /// The machine with `ticks` more cycles on its clock.
    pub open spec fn ticked(self, ticks: u32) -> Machine {
        Machine { clock: self.clock.ticked(ticks), ..self }
    }

    /// What one step comes to, with the cycles it took: the countdowns move,
    /// the interrupts are looked after, and unless a line was served or the
    /// processor is halted, one operation is fetched and carried out.
    pub open spec fn step(self) -> Outcome<u32> {
        match self.ime_updated().interrupt() {
            Err(fault) => Err(fault),
            Ok((served, Some(_))) => Ok((served.ticked(DISPATCH_CYCLES), DISPATCH_CYCLES)),
            Ok((awake, None)) => if awake.halted {
                Ok((awake.ticked(IDLE_CYCLES), IDLE_CYCLES))
            } else {
                match awake.run() {
                    Err(fault) => Err(fault),
                    Ok((next, ticks)) => Ok((next.ticked(ticks), ticks)),
                }
            },
        }
    }

    /// What one step of the whole machine comes to: the processor takes a
    /// step, and the devices on the bus let the cycles pass that it took.
    pub open spec fn advanced(self) -> Outcome<u32> {
        match self.step() {
            Err(fault) => Err(fault),
            Ok((next, ticks)) => Ok((Machine { bus: next.bus.advanced(ticks), ..next }, ticks)),
        }
    }

    /// The machine after the I/O registers were given their values at power
    /// on. Of the registers written, only three of the timer's are backed by a
    /// device: its counter, its reload value and its control register become zero.
    pub open spec fn powered_up(self) -> Machine {
        Machine {
            bus: Bus {
                timer: Timer {
                    counter: 0,
                    modulo: 0,
                    control: 0,
                    ..self.bus.timer
                },
                ..self.bus
            },
            ..self
        }
    }
}

} // verus!
