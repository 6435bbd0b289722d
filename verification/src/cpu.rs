use vstd::prelude::*;
use crate::alu::{alu_add, alu_sub, alu_xor, condition_holds, jump_target};
use crate::clock::Clock;
use crate::error::Fault;
use crate::interconnect::{Bus, Interconnect};
use crate::machine::{realizes, Machine, DISPATCH_CYCLES, IDLE_CYCLES, LINES};
use crate::opcode::{Family, Opcode, Operand, Reg8};
use crate::register::Register;

verus! {

/// The processor: the register file, the bus it works on, and the state of
/// its halt and interrupt-enable machinery.
pub struct Cpu {
    pub register: Register,
    pub interconnect: Interconnect,
    pub halted: bool,
    /// The master interrupt-enable flag.
    pub ime: bool,
    /// Steps left until a requested disable of the master flag takes effect, or zero.
    pub set_di: u8,
    /// Steps left until a requested enable of the master flag takes effect, or zero.
    pub set_ei: u8,
    pub clock: Clock,
}

impl View for Cpu {
    type V = Machine;

    open spec fn view(&self) -> Machine {
        Machine {
            register: self.register,
            halted: self.halted,
            ime: self.ime,
            set_di: self.set_di,
            set_ei: self.set_ei,
            clock: self.clock,
            bus: self.interconnect@,
        }
    }
}

impl Cpu {
    /// The bus is well formed.
    pub open spec fn wf(&self) -> bool {
        self.interconnect.wf()
    }

    /// A processor at its power-on state, running, with interrupts disabled.
    pub fn new(interconnect: Interconnect) -> (cpu: Cpu)
        requires
            interconnect.wf(),
        ensures
            cpu.wf(),
            cpu@ == (Machine {
                register: Register::power_on(),
                halted: false,
                ime: false,
                set_di: 0,
                set_ei: 0,
                clock: Clock { m: 0, t: 0 },
                bus: interconnect@,
            }),
    {
        Cpu {
            register: Register::new(),
            interconnect,
            halted: false,
            ime: false,
            set_di: 0,
            set_ei: 0,
            clock: Clock::new(),
        }
    }

    /// Moves the two countdowns of the master flag on by one step.
    pub fn update_ime(&mut self)
        requires
            old(self).wf(),
        ensures
            final(self).wf(),
            final(self)@ == old(self)@.ime_updated(),
    {
        self.set_di = match self.set_di {
            2 => 1,
            1 => {
                self.ime = false;
                0
            },
            _ => 0,
        };
        self.set_ei = match self.set_ei {
            2 => 1,
            1 => {
                self.ime = true;
                0
            },
            _ => 0,
        };
    }

    /// Stores two bytes, low byte first, or neither.
    pub fn store16(&mut self, addr: u16, value: u16) -> (done: Result<(), Fault>)
        requires
            old(self).wf(),
        ensures
            final(self).wf(),
            final(self)@ == (Machine { bus: old(self)@.bus.stored16(addr, value), ..old(self)@ }),
            match Bus::store16_fault(addr) {
                Some(e) => done == Err::<(), Fault>(Fault::Bus(e)),
                None => done is Ok,
            },
    {
        match self.interconnect.store16(addr, value) {
            Ok(()) => Ok(()),
            Err(e) => Err(Fault::Bus(e)),
        }
    }

    /// Loads one byte.
    pub fn load8(&self, addr: u16) -> (value: Result<u8, Fault>)
        requires
            self.wf(),
        ensures
            match self@.bus.load8(addr) {
                Ok(byte) => value == Ok::<u8, Fault>(byte),
                Err(e) => value == Err::<u8, Fault>(Fault::Bus(e)),
            },
    {
        match self.interconnect.load8(addr) {
            Ok(byte) => Ok(byte),
            Err(e) => Err(Fault::Bus(e)),
        }
    }

    /// Loads two bytes, low byte first.
    pub fn load16(&self, addr: u16) -> (value: Result<u16, Fault>)
        requires
            self.wf(),
        ensures
            match self@.bus.load16(addr) {
                Ok(word) => value == Ok::<u16, Fault>(word),
                Err(e) => value == Err::<u16, Fault>(Fault::Bus(e)),
            },
    {
        match self.interconnect.load16(addr) {
            Ok(word) => Ok(word),
            Err(e) => Err(Fault::Bus(e)),
        }
    }

    /// Looks after the interrupts: wakes a halted processor if a line is both
    /// enabled and pending, and with the master flag set serves the lowest
    /// such line. Returns the address that the processor was sent to, if any.
    pub fn handle_interrupt(&mut self) -> (served: Result<Option<u16>, Fault>)
        requires
            old(self).wf(),
        ensures
            final(self).wf(),
            realizes(old(self)@, final(self)@, served, old(self)@.interrupt()),
    {
        let lines: u8 = self.interconnect.interrupt_enable() & self.interconnect.interrupt_flag();
        if lines == 0 || (!self.ime && !self.halted) {
            return Ok(None);
        }
        if !self.ime {
            self.halted = false;
            return Ok(None);
        }
        let n: u32 = lines.trailing_zeros();
        if n >= LINES {
            return Err(Fault::InvalidInterruptLine { n: n as u8 });
        }
        let sp: u16 = self.register.sp.wrapping_sub(2);
        if let Some(e) = Interconnect::store16_fault(sp) {
            return Err(Fault::Bus(e));
        }
        self.halted = false;
        self.ime = false;
        let pending: u8 = self.interconnect.interrupt_flag();
        self.interconnect.set_interrupt_flag(pending & !(1u8 << n));
        let _ = self.interconnect.store16(sp, self.register.pc);
        let target: u16 = 0x0040 + 8 * (n as u16);
        self.register.sp = sp;
        self.register.pc = target;
        Ok(Some(target))
    }

    /// Gives the I/O registers their values at power on.
    pub fn power_up(&mut self)
        requires
            old(self).wf(),
        ensures
            final(self).wf(),
            final(self)@ == old(self)@.powered_up(),
    {
        self.set_io(0xFF05, 0x00);
        self.set_io(0xFF06, 0x00);
        self.set_io(0xFF07, 0x00);
        self.set_io(0xFF10, 0x80);
        self.set_io(0xFF11, 0xBF);
        self.set_io(0xFF12, 0xF3);
        self.set_io(0xFF14, 0xBF);
        self.set_io(0xFF16, 0x3F);
        self.set_io(0xFF17, 0x00);
        self.set_io(0xFF19, 0xBF);
        self.set_io(0xFF1A, 0x7F);
        self.set_io(0xFF1B, 0xFF);
        self.set_io(0xFF1C, 0x9F);
        self.set_io(0xFF1E, 0xBF);
        self.set_io(0xFF20, 0xFF);
        self.set_io(0xFF21, 0x00);
        self.set_io(0xFF22, 0x00);
        self.set_io(0xFF23, 0xBF);
        self.set_io(0xFF24, 0x77);
        self.set_io(0xFF25, 0xF3);
        self.set_io(0xFF26, 0xF1);
        self.set_io(0xFF40, 0x91);
        self.set_io(0xFF42, 0x00);
        self.set_io(0xFF43, 0x00);
        self.set_io(0xFF45, 0x00);
        self.set_io(0xFF47, 0xFC);
        self.set_io(0xFF48, 0xFF);
        self.set_io(0xFF49, 0xFF);
        self.set_io(0xFF4A, 0x00);
        self.set_io(0xFF4B, 0x00);
    }

    fn set_io(&mut self, addr: u16, value: u8)
        requires
            old(self).wf(),
        ensures
            final(self).wf(),
            final(self)@ == (Machine { bus: old(self)@.bus.stored8(addr, value), ..old(self)@ }),
    {
        let _ = self.interconnect.store8(addr, value);
    }

    /// Fetches the operation at the program counter and carries it out.
    /// Returns the cycles it took. Where it ends with a fault, the program
    /// counter still points at the operation.
    pub fn run_next_instruction(&mut self) -> (ticks: Result<u32, Fault>)
        requires
            old(self).wf(),
        ensures
            final(self).wf(),
            realizes(old(self)@, final(self)@, ticks, old(self)@.run()),
    {
        let pc: u16 = self.register.pc;
        let instruction: u8 = match self.load8(pc) {
            Ok(byte) => byte,
            Err(fault) => {
                return Err(fault);
            },
        };
        self.register.pc = pc.wrapping_add(1);
        match self.decode(instruction) {
            Ok(ticks) => Ok(ticks),
            Err(fault) => {
                self.register.pc = pc;
                Err(fault)
            },
        }
    }

    /// Looks up the operation that `instruction` stands for and carries it
    /// out. The program counter stands behind the byte.
    pub fn decode(&mut self, instruction: u8) -> (ticks: Result<u32, Fault>)
        requires
            old(self).wf(),
        ensures
            final(self).wf(),
            realizes(old(self)@, final(self)@, ticks, old(self)@.decode(instruction)),
    {
        match Opcode::find(instruction, self.register.pc.wrapping_sub(1)) {
            Ok(op) => self.execute(op),
            Err(e) => Err(Fault::Decode(e)),
        }
    }

    fn operand(&self, x: Operand) -> (value: Result<u8, Fault>)
        requires
            self.wf(),
        ensures
            match self@.operand(x) {
                Ok(byte) => value == Ok::<u8, Fault>(byte),
                Err(e) => value == Err::<u8, Fault>(Fault::Bus(e)),
            },
    {
        match x {
            Operand::Reg(r) => Ok(self.register.read(r)),
            Operand::Memory => self.load8(self.register.hl()),
            Operand::Immediate => self.load8(self.register.pc),
        }
    }

    fn skip(&mut self, x: Operand)
        ensures
            *final(self) == (Cpu {
                register: old(self).register.at(old(self)@.past(x)),
                ..*old(self)
            }),
    {
        match x {
            Operand::Immediate => {
                self.register.pc = self.register.pc.wrapping_add(1);
            },
            _ => {},
        }
    }

    fn store(&mut self, addr: u16, value: u8, advance: u16, ticks: u32) -> (done: Result<
        u32,
        Fault,
    >)
        requires
            old(self).wf(),
        ensures
            final(self).wf(),
            realizes(
                old(self)@,
                final(self)@,
                done,
                old(self)@.store(
                    addr,
                    value,
                    old(self).register.at(old(self).register.pc.wrapping_add(advance)),
                    ticks,
                ),
            ),
    {
        match self.interconnect.store8(addr, value) {
            Ok(()) => {
                self.register.pc = self.register.pc.wrapping_add(advance);
                Ok(ticks)
            },
            Err(e) => Err(Fault::Bus(e)),
        }
    }

    fn push(&mut self, value: u16, pc: u16, ticks: u32) -> (done: Result<u32, Fault>)
        requires
            old(self).wf(),
        ensures
            final(self).wf(),
            realizes(old(self)@, final(self)@, done, old(self)@.push(value, pc, ticks)),
    {
        let sp: u16 = self.register.sp.wrapping_sub(2);
        match self.interconnect.store16(sp, value) {
            Ok(()) => {
                self.register.sp = sp;
                self.register.pc = pc;
                Ok(ticks)
            },
            Err(e) => Err(Fault::Bus(e)),
        }
    }

    fn ret(&mut self, ticks: u32) -> (done: Result<u32, Fault>)
        requires
            old(self).wf(),
        ensures
            final(self).wf(),
            realizes(old(self)@, final(self)@, done, old(self)@.ret(ticks)),
    {
        match self.load16(self.register.sp) {
            Ok(pc) => {
                self.register.sp = self.register.sp.wrapping_add(2);
                self.register.pc = pc;
                Ok(ticks)
            },
            Err(fault) => Err(fault),
        }
    }

    fn load_a(&mut self, addr: u16, advance: u16, ticks: u32) -> (done: Result<u32, Fault>)
        requires
            old(self).wf(),
        ensures
            final(self).wf(),
            realizes(
                old(self)@,
                final(self)@,
                done,
                match old(self)@.bus.load8(addr) {
                    Err(e) => Err(Fault::Bus(e)),
                    Ok(value) => Ok(
                        (
                            old(self)@.with(
                                old(self).register.with(Reg8::A, value).at(
                                    old(self).register.pc.wrapping_add(advance),
                                ),
                            ),
                            ticks,
                        ),
                    ),
                },
            ),
    {
        match self.load8(addr) {
            Ok(value) => {
                self.register.a = value;
                self.register.pc = self.register.pc.wrapping_add(advance);
                Ok(ticks)
            },
            Err(fault) => Err(fault),
        }
    }

    /// Carries out an operation that loads a register.
    fn execute_load(&mut self, op: Opcode) -> (ticks: Result<u32, Fault>)
        requires
            old(self).wf(),
            op.spec_family() is Load,
        ensures
            final(self).wf(),
            realizes(old(self)@, final(self)@, ticks, old(self)@.execute(op)),
    {
        let pc: u16 = self.register.pc;
        let ticks: u32 = op.cycles(false);
        match op {
            Opcode::LdWide(rr) => match self.load16(pc) {
                Ok(nn) => {
                    self.register.write_wide(rr, nn);
                    self.register.pc = pc.wrapping_add(2);
                    Ok(ticks)
                },
                Err(fault) => Err(fault),
            },
            Opcode::Ld(to, from) => {
                let value: u8 = self.register.read(from);
                self.register.write(to, value);
                Ok(ticks)
            },
            Opcode::LdFromHl(to) => match self.load8(self.register.hl()) {
                Ok(value) => {
                    self.register.write(to, value);
                    Ok(ticks)
                },
                Err(fault) => Err(fault),
            },
            Opcode::LdAImmediate => self.load_a(pc, 1, ticks),
            Opcode::LdAFromBc => self.load_a(self.register.bc(), 0, ticks),
            Opcode::LdAFromDe => self.load_a(self.register.de(), 0, ticks),
            Opcode::LdAFromAddress => match self.load16(pc) {
                Ok(addr) => self.load_a(addr, 2, ticks),
                Err(fault) => Err(fault),
            },
            Opcode::LdhToA => match self.load8(pc) {
                Ok(n) => self.load_a(0xFF00 + n as u16, 1, ticks),
                Err(fault) => Err(fault),
            },
            _ => Ok(ticks),
        }
    }

    /// Carries out an operation that stores a byte.
    fn execute_store(&mut self, op: Opcode) -> (ticks: Result<u32, Fault>)
        requires
            old(self).wf(),
            op.spec_family() is Store,
        ensures
            final(self).wf(),
            realizes(old(self)@, final(self)@, ticks, old(self)@.execute(op)),
    {
        let pc: u16 = self.register.pc;
        let ticks: u32 = op.cycles(false);
        match op {
            Opcode::LdToHl(from) => self.store(
                self.register.hl(),
                self.register.read(from),
                0,
                ticks,
            ),
            Opcode::LdHlImmediate => match self.load8(pc) {
                Ok(n) => self.store(self.register.hl(), n, 1, ticks),
                Err(fault) => Err(fault),
            },
            Opcode::LdBcFromA => self.store(self.register.bc(), self.register.a, 0, ticks),
            Opcode::LdDeFromA => self.store(self.register.de(), self.register.a, 0, ticks),
            Opcode::LdAddressFromA => match self.load16(pc) {
                Ok(addr) => self.store(addr, self.register.a, 2, ticks),
                Err(fault) => Err(fault),
            },
            Opcode::LdhFromA => match self.load8(pc) {
                Ok(n) => self.store(0xFF00 + n as u16, self.register.a, 1, ticks),
                Err(fault) => Err(fault),
            },
            _ => Ok(ticks),
        }
    }

    /// Carries out an arithmetic or logical operation.
    fn execute_arithmetic(&mut self, op: Opcode) -> (ticks: Result<u32, Fault>)
        requires
            old(self).wf(),
            op.spec_family() is Arithmetic,
        ensures
            final(self).wf(),
            realizes(old(self)@, final(self)@, ticks, old(self)@.execute(op)),
    {
        let ticks: u32 = op.cycles(false);
        match op {
            Opcode::Add(x) => match self.operand(x) {
                Ok(value) => {
                    let (a, flag) = alu_add(self.register.a, value);
                    self.skip(x);
                    self.register.a = a;
                    self.register.flag = flag;
                    Ok(ticks)
                },
                Err(fault) => Err(fault),
            },
            Opcode::Sub(x) => match self.operand(x) {
                Ok(value) => {
                    let (a, flag) = alu_sub(self.register.a, value);
                    self.skip(x);
                    self.register.a = a;
                    self.register.flag = flag;
                    Ok(ticks)
                },
                Err(fault) => Err(fault),
            },
            Opcode::Xor(x) => match self.operand(x) {
                Ok(value) => {
                    let (a, flag) = alu_xor(self.register.a, value);
                    self.skip(x);
                    self.register.a = a;
                    self.register.flag = flag;
                    Ok(ticks)
                },
                Err(fault) => Err(fault),
            },
            Opcode::Cp(x) => match self.operand(x) {
                Ok(value) => {
                    let (_, flag) = alu_sub(self.register.a, value);
                    self.skip(x);
                    self.register.flag = flag;
                    Ok(ticks)
                },
                Err(fault) => Err(fault),
            },
            _ => Ok(ticks),
        }
    }

    /// Carries out a stack operation, a jump or a return.
    fn execute_flow(&mut self, op: Opcode) -> (ticks: Result<u32, Fault>)
        requires
            old(self).wf(),
            op.spec_family() is Flow,
        ensures
            final(self).wf(),
            realizes(old(self)@, final(self)@, ticks, old(self)@.execute(op)),
    {
        let pc: u16 = self.register.pc;
        let ticks: u32 = op.cycles(false);
        match op {
            Opcode::Push(rr) => self.push(self.register.pushed(rr), pc, ticks),
            Opcode::Call => match self.load16(pc) {
                Ok(nn) => self.push(pc.wrapping_add(2), nn, ticks),
                Err(fault) => Err(fault),
            },
            Opcode::Rst(v) => self.push(pc, v.address(), ticks),
            Opcode::Ret => self.ret(ticks),
            Opcode::RetIf(cc) => if condition_holds(cc, self.register.flag) {
                self.ret(op.cycles(true))
            } else {
                Ok(ticks)
            },
            Opcode::JrIf(cc) => if condition_holds(cc, self.register.flag) {
                match self.load8(pc) {
                    Ok(n) => {
                        self.register.pc = jump_target(pc.wrapping_add(1), n);
                        Ok(op.cycles(true))
                    },
                    Err(fault) => Err(fault),
                }
            } else {
                self.register.pc = pc.wrapping_add(1);
                Ok(ticks)
            },
            Opcode::JpAddress => match self.load16(pc) {
                Ok(nn) => {
                    self.register.pc = nn;
                    Ok(ticks)
                },
                Err(fault) => Err(fault),
            },
            Opcode::JpHl => {
                self.register.pc = self.register.hl();
                Ok(ticks)
            },
            _ => Ok(ticks),
        }
    }

    /// Carries out an operation that touches neither registers nor memory.
    fn execute_control(&mut self, op: Opcode) -> (ticks: Result<u32, Fault>)
        requires
            old(self).wf(),
            op.spec_family() is Control,
        ensures
            final(self).wf(),
            realizes(old(self)@, final(self)@, ticks, old(self)@.execute(op)),
    {
        let ticks: u32 = op.cycles(false);
        match op {
            Opcode::Nop => Ok(ticks),
            Opcode::Di => {
                self.set_di = 2;
                Ok(ticks)
            },
            Opcode::Ei => {
                self.set_ei = 2;
                Ok(ticks)
            },
            Opcode::Halt => {
                self.halted = true;
                Ok(ticks)
            },
            _ => Ok(ticks),
        }
    }

    /// Carries out one operation and returns the cycles it took. The program
    /// counter stands behind the operation byte.
    pub fn execute(&mut self, op: Opcode) -> (ticks: Result<u32, Fault>)
        requires
            old(self).wf(),
        ensures
            final(self).wf(),
            realizes(old(self)@, final(self)@, ticks, old(self)@.execute(op)),
    {
        match op.family() {
            Family::Load => self.execute_load(op),
            Family::Store => self.execute_store(op),
            Family::Arithmetic => self.execute_arithmetic(op),
            Family::Flow => self.execute_flow(op),
            Family::Control => self.execute_control(op),
        }
    }

    /// Takes one step and returns the cycles it took: moves the countdowns of
    /// the master flag, looks after the interrupts, and unless a line was
    /// served or the processor is halted, fetches and carries out one
    /// operation. A step that ends with a fault leaves the processor and
    /// everything behind the bus as they were.
    pub fn cycle(&mut self) -> (ticks: Result<u32, Fault>)
        requires
            old(self).wf(),
        ensures
            final(self).wf(),
            realizes(old(self)@, final(self)@, ticks, old(self)@.step()),
    {
        let halted: bool = self.halted;
        let ime: bool = self.ime;
        let set_di: u8 = self.set_di;
        let set_ei: u8 = self.set_ei;
        self.update_ime();
        let spent: Result<u32, Fault> = match self.handle_interrupt() {
            Err(fault) => Err(fault),
            Ok(Some(_)) => Ok(DISPATCH_CYCLES),
            Ok(None) => if self.halted {
                Ok(IDLE_CYCLES)
            } else {
                self.run_next_instruction()
            },
        };
        match spent {
            Ok(ticks) => {
                self.clock.tick(ticks);
                Ok(ticks)
            },
            Err(fault) => {
                self.halted = halted;
                self.ime = ime;
                self.set_di = set_di;
                self.set_ei = set_ei;
                Err(fault)
            },
        }
    }

    /// Takes one step of the whole machine and returns the cycles it took:
    /// the processor takes a step, then the devices on the bus let those
    /// cycles pass, and the lines they raise become pending. After a fault
    /// nothing has changed.
    pub fn advance(&mut self) -> (ticks: Result<u32, Fault>)
        requires
            old(self).wf(),
        ensures
            final(self).wf(),
            realizes(old(self)@, final(self)@, ticks, old(self)@.advanced()),
    {
        match self.cycle() {
            Ok(ticks) => {
                self.interconnect.cycle(ticks);
                Ok(ticks)
            },
            Err(fault) => Err(fault),
        }
    }
}

} // verus!
