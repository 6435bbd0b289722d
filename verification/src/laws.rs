use vstd::prelude::*;
use vstd::std_specs::bits::{axiom_u8_trailing_zeros, u8_trailing_zeros};
use crate::echo::ECHO_SIZE;
use crate::error::{BusError, Fault};
use crate::interconnect::{Bus, Region, ECHO_START, INTERRUPT_FLAG, WRAM_START};
use crate::machine::{vector, Machine, IDLE_CYCLES, LINES};
use crate::opcode::{Opcode, Operand};
use crate::register::Register;
use crate::timer::{Timer, TIMER_DIVIDER};
use crate::word::{high, lemma_pair_halves, low};

verus! {

/// A value written to the pair `bc`, `de` or `hl` is the value read back from
/// it. Written to `af`, it is read back with the low nibble cleared.
pub proof fn lemma_pair_round_trip(register: Register, value: u16)
    ensures
        register.with_bc(value).spec_bc() == value,
        register.with_de(value).spec_de() == value,
        register.with_hl(value).spec_hl() == value,
        register.with_af(value).spec_af() == value & 0xFFF0,
        register.with_af(value).spec_af() == value - value % 16,
{
    assert(value & 0xFFF0 == value - value % 16) by (bit_vector);
}

/// Writing one pair leaves the other three pairs as they were.
pub proof fn lemma_pairs_independent(register: Register, value: u16)
    ensures
        register.with_bc(value).spec_de() == register.spec_de(),
        register.with_bc(value).spec_hl() == register.spec_hl(),
        register.with_bc(value).spec_af() == register.spec_af(),
        register.with_de(value).spec_bc() == register.spec_bc(),
        register.with_de(value).spec_hl() == register.spec_hl(),
        register.with_de(value).spec_af() == register.spec_af(),
        register.with_hl(value).spec_bc() == register.spec_bc(),
        register.with_hl(value).spec_de() == register.spec_de(),
        register.with_hl(value).spec_af() == register.spec_af(),
        register.with_af(value).spec_bc() == register.spec_bc(),
        register.with_af(value).spec_de() == register.spec_de(),
        register.with_af(value).spec_hl() == register.spec_hl(),
{
}

/// Whether a byte stored at `addr` is the byte loaded from there afterwards.
/// This holds of the memories and of the registers that keep what is written
/// to them; it fails of ROM and the windows where nothing answers, of the
/// I/O registers that no device handles, and of the timer's divider.
pub open spec fn retains(addr: u16) -> bool {
    let region = Region::of(addr);
    region.writable() && !(region is Io) && addr != TIMER_DIVIDER
}

/// The address at which the other window shows the byte that working RAM or
/// echo RAM holds at `addr`, where there is one.
pub open spec fn alias(addr: u16) -> Option<u16> {
    if WRAM_START <= addr < WRAM_START + ECHO_SIZE {
        Some((addr + (ECHO_START - WRAM_START)) as u16)
    } else if Region::of(addr) is Echo {
        Some((addr - (ECHO_START - WRAM_START)) as u16)
    } else {
        None
    }
}

/// A byte stored where stores are kept is loaded back from there.
pub proof fn lemma_store_then_load(bus: Bus, addr: u16, value: u8)
    requires
        bus.wf(),
        retains(addr),
    ensures
        bus.stored8(addr, value).wf(),
        bus.stored8(addr, value).load8(addr) == Ok::<u8, BusError>(value),
{
}

/// A store through the working RAM window is seen through the echo window,
/// and a store through the echo window through the working RAM window.
pub proof fn lemma_echo_alias(bus: Bus, addr: u16, value: u8)
    requires
        bus.wf(),
        alias(addr) is Some,
    ensures
        bus.load8(alias(addr)->0) == bus.load8(addr),
        bus.stored8(addr, value).load8(alias(addr)->0) == Ok::<u8, BusError>(value),
        bus.stored8(addr, value).load8(addr) == Ok::<u8, BusError>(value),
{
}

/// A store is seen at its own address and at its alias, and nowhere else in
/// memory: a load from any other address that is served by ROM or a RAM reads
/// what it read before.
pub proof fn lemma_store_elsewhere(bus: Bus, addr: u16, value: u8, other: u16)
    requires
        bus.wf(),
        other != addr,
        alias(addr) != Some(other),
        ({
            let region = Region::of(other);
            region is Rom || region is RomBank || region is Eram || region is Wram || region is Echo
                || region is Hram
        }),
    ensures
        bus.stored8(addr, value).load8(other) == bus.load8(other),
{
}

/// Two bytes stored where stores are kept are loaded back as the value they were.
pub proof fn lemma_store16_then_load16(bus: Bus, addr: u16, value: u16)
    requires
        bus.wf(),
        retains(addr),
        retains(addr.wrapping_add(1)),
    ensures
        Bus::store16_fault(addr) is None,
        bus.stored16(addr, value).wf(),
        bus.stored16(addr, value).load16(addr) == Ok::<u16, BusError>(value),
{
    let next = addr.wrapping_add(1);
    let first = bus.stored8(addr, low(value));
    lemma_pair_halves(0, 0, value);
    assert(first.load8(addr) == Ok::<u8, BusError>(low(value)));
    assert(first.stored8(next, high(value)).load8(addr) == first.load8(addr));
}

/// A call followed by a return comes back behind the call with the stack
/// pointer where it was: if the processor carries out a call at `P` with the
/// stack pointer at `S`, and directly afterwards a return, the program
/// counter is `P + 3` and the stack pointer `S`. The two bytes below `S` must
/// lie where stores are kept.
pub proof fn lemma_call_then_return(machine: Machine)
    requires
        machine.wf(),
        machine.bus.load8(machine.register.pc) == Ok::<u8, BusError>(0xCD),
        machine.run() is Ok,
        retains(machine.register.sp.wrapping_sub(2)),
        retains(machine.register.sp.wrapping_sub(1)),
        ({
            let called = machine.run()->Ok_0.0;
            called.bus.load8(called.register.pc) == Ok::<u8, BusError>(0xC9)
        }),
    ensures
        ({
            let called = machine.run()->Ok_0.0;
            &&& called.run() is Ok
            &&& called.run()->Ok_0.0.register.pc == machine.register.pc.wrapping_add(3)
            &&& called.run()->Ok_0.0.register.sp == machine.register.sp
        }),
{
    let pc = machine.register.pc;
    let sp = machine.register.sp.wrapping_sub(2);
    Opcode::lemma_decode_code(Opcode::Call);
    Opcode::lemma_decode_code(Opcode::Ret);
    let fetched = machine.with(machine.register.at(pc.wrapping_add(1)));
    assert(machine.run() == fetched.execute(Opcode::Call));
    let back = pc.wrapping_add(3);
    assert(pc.wrapping_add(1).wrapping_add(2) == back);
    lemma_store16_then_load16(machine.bus, sp, back);
    let called = machine.run()->Ok_0.0;
    assert(called.bus == machine.bus.stored16(sp, back));
    assert(called.register.sp == sp);
    assert(sp.wrapping_add(2) == machine.register.sp);
}

/// A request to enable interrupts takes effect one step late: the step that
/// follows the request still runs with the master flag as it was, and the
/// step after that runs with the flag set. A request to disable is late in
/// the same way.
pub proof fn lemma_master_flag_is_delayed(machine: Machine)
    ensures
        machine.set_ei == 2 && machine.set_di == 0 ==> {
            &&& machine.ime_updated().ime == machine.ime
            &&& machine.ime_updated().ime_updated().ime
        },
        machine.set_di == 2 && machine.set_ei == 0 ==> {
            &&& machine.ime_updated().ime == machine.ime
            &&& !machine.ime_updated().ime_updated().ime
        },
        machine.set_di == 0 && machine.set_ei == 0 ==> machine.ime_updated() == machine,
{
}

/// A halted processor wakes when a line is both enabled and pending, whatever
/// the master flag says. With the master flag clear it serves nothing: the
/// flag stays clear, the pending mask and the registers stay as they were.
pub proof fn lemma_wake_without_service(machine: Machine)
    requires
        machine.halted,
        !machine.ime,
        machine.lines() != 0,
    ensures
        machine.interrupt() == Ok::<(Machine, Option<u16>), Fault>(
            (Machine { halted: false, ..machine }, None),
        ),
{
}

/// While no line is both enabled and pending, a halted processor stays
/// halted: each step only lets the idle cycles pass.
pub proof fn lemma_halted_without_lines(machine: Machine)
    requires
        machine.halted,
        machine.lines() == 0,
    ensures
        machine.step() == Ok::<(Machine, u32), Fault>(
            (machine.ime_updated().ticked(IDLE_CYCLES), IDLE_CYCLES),
        ),
        machine.step()->Ok_0.0.halted,
        machine.step()->Ok_0.0.lines() == 0,
{
}

/// The line that is served is the lowest that is both enabled and pending:
/// its bit is set among those lines and no bit below it is. The processor
/// wakes, loses the master flag and goes to the line's vector. Of the pending
/// mask only the bit of that line is cleared, unless the push of the program
/// counter lands on the pending register itself.
pub proof fn lemma_interrupt_priority(machine: Machine)
    requires
        machine.ime,
        machine.lines() != 0,
        machine.interrupt() is Ok,
    ensures
        ({
            let n = u8_trailing_zeros(machine.lines());
            let served = machine.interrupt()->Ok_0;
            let pending = machine.bus.interrupt_flag;
            let cleared = pending & !(1u8 << n);
            let sp = machine.register.sp.wrapping_sub(2);
            &&& n < LINES
            &&& (machine.lines() >> (n as u8)) & 1 == 1
            &&& forall|k: u8| 0 <= k < n ==> #[trigger] (machine.lines() >> k) & 1 == 0
            &&& served.1 == Some(vector(n))
            &&& served.0.register.pc == vector(n)
            &&& served.0.register.sp == sp
            &&& !served.0.ime
            &&& !served.0.halted
            &&& (cleared >> (n as u8)) & 1 == 0
            &&& forall|k: u8| 0 <= k < 8 && k != n ==> #[trigger] (cleared >> k) & 1 == (pending >> k)
                & 1
            &&& sp != INTERRUPT_FLAG && sp.wrapping_add(1) != INTERRUPT_FLAG
                ==> served.0.bus.interrupt_flag == cleared
        }),
{
    let lines = machine.lines();
    axiom_u8_trailing_zeros(lines);
    let n = u8_trailing_zeros(lines);
    let line = n as u8;
    let pending = machine.bus.interrupt_flag;
    assert(forall|k: u8| 0 <= k < 8 && k != line && line < 8 ==> #[trigger] ((pending & !(1u8
        << line)) >> k) & 1 == (pending >> k) & 1) by (bit_vector);
    assert(line < 8 ==> ((pending & !(1u8 << line)) >> line) & 1 == 0) by (bit_vector);
    assert(1u8 << n == 1u8 << line);
}

/// A counter at its last value overflows with the next step: it restarts from
/// the reload value and the overflow is reported.
pub proof fn lemma_counter_overflow(modulo: u8)
    ensures
        Timer::counted(255, modulo, 1) == (modulo, true),
{
    reveal_with_fuel(Timer::counted, 2);
}

/// An operation that is no jump, call, return or push leaves the program
/// counter behind its last byte: where it is carried out, the counter has
/// moved on by the operation's width, of which the step that fetched the
/// operation byte has already taken one.
pub proof fn lemma_program_counter_advances(machine: Machine, op: Opcode)
    requires
        !(op.spec_family() is Flow),
        machine.execute(op) is Ok,
    ensures
        machine.execute(op)->Ok_0.0.register.pc == (if op.width() == 3 {
            machine.register.pc.wrapping_add(2)
        } else if op.width() == 2 {
            machine.register.pc.wrapping_add(1)
        } else {
            machine.register.pc
        }),
        1 <= op.width() <= 3,
{
}

/// A compare sets the flags that the subtraction of the same operand sets,
/// and moves the program counter as far, but leaves the accumulator alone.
pub proof fn lemma_compare_is_subtract_without_result(machine: Machine, x: Operand)
    ensures
        machine.execute(Opcode::Cp(x)) is Ok <==> machine.execute(Opcode::Sub(x)) is Ok,
        machine.execute(Opcode::Cp(x)) is Ok ==> ({
            let compared = machine.execute(Opcode::Cp(x))->Ok_0;
            let subtracted = machine.execute(Opcode::Sub(x))->Ok_0;
            &&& compared.0 == Machine {
                register: Register { a: machine.register.a, ..subtracted.0.register },
                ..subtracted.0
            }
            &&& compared.1 == subtracted.1
        }),
        machine.execute(Opcode::Cp(x)) is Err ==> machine.execute(Opcode::Cp(x))->Err_0
            == machine.execute(Opcode::Sub(x))->Err_0,
{
}

/// Halting changes nothing but the halted state.
pub proof fn lemma_halt_only_halts(machine: Machine)
    ensures
        machine.execute(Opcode::Halt) == Ok::<(Machine, u32), Fault>(
            (Machine { halted: true, ..machine }, 4),
        ),
{
}

} // verus!
