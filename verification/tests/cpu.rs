use gameboy::clock::Clock;
use gameboy::cpu::Cpu;
use gameboy::error::{AccessKind, BusError, DecodeError, Fault};
use gameboy::interconnect::Interconnect;
use gameboy::opcode::{Opcode, Operand, Reg8, StackPair, Vector};
use gameboy::register::{Flag, Register};
use gameboy::rom::Rom;

/// A processor whose ROM holds `program` from 0x0100 on and zeros elsewhere.
fn cpu_with(program: &[u8]) -> Cpu {
    let mut data = vec![0u8; 0x8000];
    data[0x0100..0x0100 + program.len()].copy_from_slice(program);
    let mut cpu = Cpu::new(Interconnect::new(Rom::new(data)));
    cpu.register.sp = 0xDFF0;
    cpu
}

fn clear() -> Flag {
    Flag { z: false, n: false, h: false, c: false }
}

#[test]
fn new_cpu_is_at_power_on() {
    let cpu = Cpu::new(Interconnect::new(Rom::new(vec![0u8; 0x8000])));
    assert_eq!(cpu.register, Register::new());
    assert!(!cpu.halted);
    assert!(!cpu.ime);
    assert_eq!((cpu.set_di, cpu.set_ei), (0, 0));
    assert_eq!(cpu.clock, Clock { m: 0, t: 0 });
}

#[test]
fn add_flags() {
    let mut cpu = cpu_with(&[0x80]);
    cpu.register.a = 0x0F;
    cpu.register.b = 0x01;
    assert_eq!(cpu.cycle(), Ok(4));
    assert_eq!(cpu.register.a, 0x10);
    assert_eq!(cpu.register.flag, Flag { z: false, n: false, h: true, c: false });
    assert_eq!(cpu.register.pc, 0x0101);
}

#[test]
fn sub_flags() {
    let mut cpu = cpu_with(&[0x90]);
    cpu.register.a = 0x00;
    cpu.register.b = 0x01;
    assert_eq!(cpu.cycle(), Ok(4));
    assert_eq!(cpu.register.a, 0xFF);
    assert_eq!(cpu.register.flag, Flag { z: false, n: true, h: true, c: true });
}

#[test]
fn compare_keeps_the_accumulator() {
    let mut cpu = cpu_with(&[0xB8, 0xFE, 0x07]);
    cpu.register.a = 0x00;
    cpu.register.b = 0x01;
    assert_eq!(cpu.cycle(), Ok(4));
    assert_eq!(cpu.register.a, 0x00);
    assert_eq!(cpu.register.flag, Flag { z: false, n: true, h: true, c: true });
    cpu.register.a = 0x07;
    assert_eq!(cpu.cycle(), Ok(8));
    assert_eq!(cpu.register.a, 0x07);
    assert_eq!(cpu.register.flag, Flag { z: true, n: true, h: false, c: false });
    assert_eq!(cpu.register.pc, 0x0103);
}

#[test]
fn xor_clears_all_but_zero() {
    let mut cpu = cpu_with(&[0xAF, 0xEE, 0x5A]);
    cpu.register.a = 0x3C;
    assert_eq!(cpu.cycle(), Ok(4));
    assert_eq!(cpu.register.a, 0x00);
    assert_eq!(cpu.register.flag, Flag { z: true, n: false, h: false, c: false });
    assert_eq!(cpu.cycle(), Ok(8));
    assert_eq!(cpu.register.a, 0x5A);
    assert_eq!(cpu.register.flag, clear());
    assert_eq!(cpu.register.pc, 0x0103);
}

#[test]
fn add_from_memory_and_immediate() {
    let mut cpu = cpu_with(&[0x86, 0xC6, 0xF0]);
    cpu.interconnect.store8(0xC123, 0x22).unwrap();
    cpu.register.set_hl(0xC123);
    cpu.register.a = 0x11;
    assert_eq!(cpu.cycle(), Ok(8));
    assert_eq!(cpu.register.a, 0x33);
    assert_eq!(cpu.register.pc, 0x0101);
    assert_eq!(cpu.cycle(), Ok(8));
    assert_eq!(cpu.register.a, 0x23);
    assert_eq!(cpu.register.flag, Flag { z: false, n: false, h: false, c: true });
    assert_eq!(cpu.register.pc, 0x0103);
}

#[test]
fn interrupt_priority() {
    let mut cpu = cpu_with(&[0x00]);
    cpu.interconnect.set_interrupt_enable(0x1F);
    cpu.interconnect.set_interrupt_flag(0x06);
    cpu.ime = true;
    assert_eq!(cpu.handle_interrupt(), Ok(Some(0x0048)));
    assert_eq!(cpu.interconnect.interrupt_flag(), 0x04);
    assert_eq!(cpu.interconnect.interrupt_enable(), 0x1F);
    assert_eq!(cpu.register.pc, 0x0048);
    assert!(!cpu.ime);
    assert_eq!(cpu.register.sp, 0xDFEE);
    assert_eq!(cpu.interconnect.load16(0xDFEE), Ok(0x0100));
}

#[test]
fn every_line_has_its_vector() {
    for line in 0..5u16 {
        let mut cpu = cpu_with(&[0x00]);
        cpu.interconnect.set_interrupt_enable(0x1F);
        cpu.interconnect.set_interrupt_flag(0x1F & !((1u8 << line) - 1));
        cpu.ime = true;
        assert_eq!(cpu.cycle(), Ok(20));
        assert_eq!(cpu.register.pc, 0x0040 + 8 * line);
        assert_eq!(cpu.interconnect.interrupt_flag(), 0x1F & !((1u8 << (line + 1)) - 1));
    }
}

#[test]
fn disabled_line_is_not_served() {
    let mut cpu = cpu_with(&[0x00]);
    cpu.interconnect.set_interrupt_enable(0x04);
    cpu.interconnect.set_interrupt_flag(0x03);
    cpu.ime = true;
    assert_eq!(cpu.handle_interrupt(), Ok(None));
    assert!(cpu.ime);
    assert_eq!(cpu.interconnect.interrupt_flag(), 0x03);
    assert_eq!(cpu.register.pc, 0x0100);
}

#[test]
fn halt_wake_without_service() {
    let mut cpu = cpu_with(&[0x76, 0x00, 0x00]);
    cpu.interconnect.set_interrupt_enable(0x01);
    assert_eq!(cpu.cycle(), Ok(4));
    assert!(cpu.halted);
    assert_eq!(cpu.register.pc, 0x0101);
    // Nothing pending: the processor stays halted.
    assert_eq!(cpu.cycle(), Ok(4));
    assert!(cpu.halted);
    assert_eq!(cpu.register.pc, 0x0101);
    cpu.interconnect.set_interrupt_flag(0x01);
    assert_eq!(cpu.cycle(), Ok(4));
    assert!(!cpu.halted);
    assert!(!cpu.ime);
    assert_eq!(cpu.interconnect.interrupt_flag(), 0x01);
    assert_eq!(cpu.register.pc, 0x0102);
    assert_eq!(cpu.register.sp, 0xDFF0);
}

#[test]
fn halted_with_master_flag_is_served() {
    let mut cpu = cpu_with(&[0x76]);
    cpu.interconnect.set_interrupt_enable(0x04);
    cpu.ime = true;
    assert_eq!(cpu.cycle(), Ok(4));
    assert!(cpu.halted);
    cpu.interconnect.set_interrupt_flag(0x04);
    assert_eq!(cpu.cycle(), Ok(20));
    assert!(!cpu.halted);
    assert_eq!(cpu.register.pc, 0x0050);
    assert_eq!(cpu.interconnect.interrupt_flag(), 0x00);
    assert_eq!(cpu.interconnect.load16(cpu.register.sp), Ok(0x0101));
}

#[test]
fn halted_for_good_only_idles() {
    let mut cpu = cpu_with(&[0x76]);
    assert_eq!(cpu.cycle(), Ok(4));
    let register = cpu.register;
    for _ in 0..1000 {
        assert_eq!(cpu.cycle(), Ok(4));
        assert!(cpu.halted);
        assert_eq!(cpu.register, register);
    }
    assert_eq!(cpu.clock.t, 4004);
    assert_eq!(cpu.clock.m, 1001);
}

#[test]
fn invalid_interrupt_line() {
    let mut cpu = cpu_with(&[0x00]);
    cpu.interconnect.set_interrupt_enable(0xE0);
    cpu.interconnect.set_interrupt_flag(0x60);
    cpu.ime = true;
    let register = cpu.register;
    assert_eq!(cpu.handle_interrupt(), Err(Fault::InvalidInterruptLine { n: 5 }));
    assert_eq!(cpu.cycle(), Err(Fault::InvalidInterruptLine { n: 5 }));
    assert_eq!(cpu.register, register);
    assert!(cpu.ime);
    assert_eq!(cpu.interconnect.interrupt_flag(), 0x60);
    cpu.interconnect.set_interrupt_flag(0x80);
    assert_eq!(cpu.handle_interrupt(), Err(Fault::InvalidInterruptLine { n: 7 }));
}

#[test]
fn relative_jump_arithmetic() {
    let mut cpu = cpu_with(&[0x20, 0xFE]);
    cpu.register.flag = clear();
    assert_eq!(cpu.cycle(), Ok(12));
    assert_eq!(cpu.register.pc, 0x0100);
}

#[test]
fn relative_jump_not_taken_skips_the_displacement() {
    let mut cpu = cpu_with(&[0x28, 0xFE, 0x38, 0x10, 0x30, 0x02, 0x00, 0x00, 0x20, 0x7F]);
    cpu.register.flag = clear();
    assert_eq!(cpu.cycle(), Ok(8));
    assert_eq!(cpu.register.pc, 0x0102);
    assert_eq!(cpu.cycle(), Ok(8));
    assert_eq!(cpu.register.pc, 0x0104);
    assert_eq!(cpu.cycle(), Ok(12));
    assert_eq!(cpu.register.pc, 0x0108);
    assert_eq!(cpu.cycle(), Ok(12));
    assert_eq!(cpu.register.pc, 0x010A + 0x7F);
}

#[test]
fn call_and_return_round_trip() {
    let mut program = vec![0u8; 0x100];
    program[0..3].copy_from_slice(&[0xCD, 0x80, 0x01]);
    program[0x80] = 0xC9;
    let mut cpu = cpu_with(&program);
    assert_eq!(cpu.cycle(), Ok(24));
    assert_eq!(cpu.register.pc, 0x0180);
    assert_eq!(cpu.register.sp, 0xDFEE);
    assert_eq!(cpu.interconnect.load8(0xDFEE), Ok(0x03));
    assert_eq!(cpu.interconnect.load8(0xDFEF), Ok(0x01));
    assert_eq!(cpu.cycle(), Ok(16));
    assert_eq!(cpu.register.pc, 0x0103);
    assert_eq!(cpu.register.sp, 0xDFF0);
}

#[test]
fn call_with_the_stack_in_rom_faults_and_changes_nothing() {
    let mut cpu = cpu_with(&[0xCD, 0x80, 0x01]);
    cpu.register.sp = 0x4000;
    let register = cpu.register;
    assert_eq!(
        cpu.cycle(),
        Err(Fault::Bus(BusError::Unmapped { address: 0x3FFE, kind: AccessKind::Store }))
    );
    assert_eq!(cpu.register, register);
    assert_eq!(cpu.clock, Clock { m: 0, t: 0 });
}

#[test]
fn conditional_return() {
    let mut cpu = cpu_with(&[0xC0, 0xC8, 0xD8, 0xD0]);
    cpu.interconnect.store16(0xDFF0, 0x0234).unwrap();
    cpu.register.flag = Flag { z: true, n: false, h: false, c: false };
    assert_eq!(cpu.cycle(), Ok(8));
    assert_eq!((cpu.register.pc, cpu.register.sp), (0x0101, 0xDFF0));
    assert_eq!(cpu.cycle(), Ok(20));
    assert_eq!((cpu.register.pc, cpu.register.sp), (0x0234, 0xDFF2));
    cpu.register.pc = 0x0102;
    cpu.register.sp = 0xDFF0;
    assert_eq!(cpu.cycle(), Ok(8));
    assert_eq!((cpu.register.pc, cpu.register.sp), (0x0103, 0xDFF0));
    assert_eq!(cpu.cycle(), Ok(20));
    assert_eq!((cpu.register.pc, cpu.register.sp), (0x0234, 0xDFF2));
}

#[test]
fn push_stores_low_byte_first() {
    let mut cpu = cpu_with(&[0xC5, 0xF5]);
    cpu.register.set_bc(0x1234);
    assert_eq!(cpu.cycle(), Ok(16));
    assert_eq!(cpu.register.sp, 0xDFEE);
    assert_eq!(cpu.interconnect.load8(0xDFEE), Ok(0x34));
    assert_eq!(cpu.interconnect.load8(0xDFEF), Ok(0x12));
    assert_eq!(cpu.register.pc, 0x0101);
    assert_eq!(cpu.cycle(), Ok(16));
    assert_eq!(cpu.register.sp, 0xDFEC);
    assert_eq!(cpu.interconnect.load16(0xDFEC), Ok(0x01B0));
}

#[test]
fn stack_pointer_goes_round() {
    let mut cpu = cpu_with(&[0xE5, 0xC9]);
    cpu.register.sp = 0x0000;
    cpu.register.set_hl(0x0150);
    cpu.interconnect.set_interrupt_enable(0xAA);
    assert_eq!(cpu.cycle(), Ok(16));
    assert_eq!(cpu.register.sp, 0xFFFE);
    assert_eq!(cpu.interconnect.load8(0xFFFE), Ok(0x50));
    assert_eq!(cpu.interconnect.interrupt_enable(), 0x01);
    assert_eq!(cpu.register.pc, 0x0101);
    assert_eq!(cpu.cycle(), Ok(16));
    assert_eq!(cpu.register.sp, 0x0000);
    assert_eq!(cpu.register.pc, 0x0150);
}

#[test]
fn push_across_the_top_into_rom_is_refused() {
    let mut cpu = cpu_with(&[0xE5]);
    cpu.register.sp = 0x0001;
    cpu.interconnect.set_interrupt_enable(0xAA);
    assert_eq!(
        cpu.cycle(),
        Err(Fault::Bus(BusError::Unmapped { address: 0x0000, kind: AccessKind::Store }))
    );
    assert_eq!(cpu.register.sp, 0x0001);
    assert_eq!(cpu.register.pc, 0x0100);
    assert_eq!(cpu.interconnect.interrupt_enable(), 0xAA);
}

#[test]
fn restart_pushes_the_return_address() {
    let mut cpu = cpu_with(&[0xEF]);
    assert_eq!(cpu.cycle(), Ok(16));
    assert_eq!(cpu.register.pc, 0x0028);
    assert_eq!(cpu.register.sp, 0xDFEE);
    assert_eq!(cpu.interconnect.load16(0xDFEE), Ok(0x0101));
}

#[test]
fn absolute_jumps() {
    let mut cpu = cpu_with(&[0xC3, 0x50, 0x01]);
    assert_eq!(cpu.cycle(), Ok(16));
    assert_eq!(cpu.register.pc, 0x0150);
    let mut cpu = cpu_with(&[0xE9]);
    cpu.register.set_hl(0x4321);
    assert_eq!(cpu.cycle(), Ok(4));
    assert_eq!(cpu.register.pc, 0x4321);
}

#[test]
fn wide_immediate_loads() {
    let mut cpu = cpu_with(&[0x01, 0x34, 0x12, 0x11, 0x78, 0x56, 0x21, 0xBC, 0x9A, 0x31, 0xFE, 0xFF]);
    for _ in 0..4 {
        assert_eq!(cpu.cycle(), Ok(12));
    }
    assert_eq!(cpu.register.bc(), 0x1234);
    assert_eq!(cpu.register.de(), 0x5678);
    assert_eq!(cpu.register.hl(), 0x9ABC);
    assert_eq!(cpu.register.sp, 0xFFFE);
    assert_eq!(cpu.register.pc, 0x010C);
}

#[test]
fn register_to_register_loads() {
    let mut cpu = cpu_with(&[0x41, 0x78, 0x57, 0x6A, 0x7F]);
    cpu.register.c = 0x99;
    assert_eq!(cpu.cycle(), Ok(4));
    assert_eq!(cpu.register.b, 0x99);
    assert_eq!(cpu.cycle(), Ok(4));
    assert_eq!(cpu.register.a, 0x99);
    assert_eq!(cpu.cycle(), Ok(4));
    assert_eq!(cpu.register.d, 0x99);
    assert_eq!(cpu.cycle(), Ok(4));
    assert_eq!(cpu.register.l, 0x99);
    let before = cpu.register;
    assert_eq!(cpu.cycle(), Ok(4));
    assert_eq!(cpu.register, Register { pc: 0x0105, ..before });
}

#[test]
fn loads_through_register_pairs() {
    let mut cpu = cpu_with(&[0x0A, 0x1A, 0x7E, 0x4E, 0x3E, 0x77]);
    cpu.interconnect.store8(0xC001, 0x11).unwrap();
    cpu.interconnect.store8(0xC002, 0x22).unwrap();
    cpu.interconnect.store8(0xC003, 0x33).unwrap();
    cpu.register.set_bc(0xC001);
    cpu.register.set_de(0xC002);
    cpu.register.set_hl(0xC003);
    assert_eq!(cpu.cycle(), Ok(8));
    assert_eq!(cpu.register.a, 0x11);
    assert_eq!(cpu.cycle(), Ok(8));
    assert_eq!(cpu.register.a, 0x22);
    assert_eq!(cpu.cycle(), Ok(8));
    assert_eq!(cpu.register.a, 0x33);
    assert_eq!(cpu.cycle(), Ok(8));
    assert_eq!(cpu.register.c, 0x33);
    assert_eq!(cpu.cycle(), Ok(8));
    assert_eq!(cpu.register.a, 0x77);
    assert_eq!(cpu.register.pc, 0x0106);
}

#[test]
fn stores_through_register_pairs() {
    let mut cpu = cpu_with(&[0x02, 0x12, 0x77, 0x70, 0x36, 0x5A]);
    cpu.register.a = 0xA1;
    cpu.register.set_bc(0xC010);
    cpu.register.set_de(0xC020);
    cpu.register.set_hl(0xC030);
    assert_eq!(cpu.cycle(), Ok(8));
    assert_eq!(cpu.interconnect.load8(0xC010), Ok(0xA1));
    assert_eq!(cpu.register.bc(), 0xC010);
    assert_eq!(cpu.cycle(), Ok(8));
    assert_eq!(cpu.interconnect.load8(0xC020), Ok(0xA1));
    assert_eq!(cpu.register.de(), 0xC020);
    assert_eq!(cpu.cycle(), Ok(8));
    assert_eq!(cpu.interconnect.load8(0xC030), Ok(0xA1));
    assert_eq!(cpu.cycle(), Ok(8));
    assert_eq!(cpu.interconnect.load8(0xC030), Ok(0xC0));
    assert_eq!(cpu.cycle(), Ok(12));
    assert_eq!(cpu.interconnect.load8(0xC030), Ok(0x5A));
    assert_eq!(cpu.register.pc, 0x0106);
}

#[test]
fn loads_and_stores_at_immediate_addresses() {
    let mut cpu = cpu_with(&[0xEA, 0x00, 0xC1, 0xFA, 0x01, 0xC1, 0xE0, 0x80, 0xF0, 0x81]);
    cpu.register.a = 0x42;
    cpu.interconnect.store8(0xC101, 0x24).unwrap();
    cpu.interconnect.store8(0xFF81, 0x99).unwrap();
    assert_eq!(cpu.cycle(), Ok(16));
    assert_eq!(cpu.interconnect.load8(0xC100), Ok(0x42));
    assert_eq!(cpu.register.pc, 0x0103);
    assert_eq!(cpu.cycle(), Ok(16));
    assert_eq!(cpu.register.a, 0x24);
    assert_eq!(cpu.register.pc, 0x0106);
    assert_eq!(cpu.cycle(), Ok(12));
    assert_eq!(cpu.interconnect.load8(0xFF80), Ok(0x24));
    assert_eq!(cpu.register.pc, 0x0108);
    assert_eq!(cpu.cycle(), Ok(12));
    assert_eq!(cpu.register.a, 0x99);
    assert_eq!(cpu.register.pc, 0x010A);
}

#[test]
fn enable_takes_effect_after_the_next_operation() {
    let mut cpu = cpu_with(&[0xFB, 0x00, 0x00, 0x00]);
    cpu.interconnect.set_interrupt_enable(0x01);
    cpu.interconnect.set_interrupt_flag(0x01);
    assert_eq!(cpu.cycle(), Ok(4));
    assert!(!cpu.ime);
    assert_eq!(cpu.set_ei, 2);
    assert_eq!(cpu.cycle(), Ok(4));
    assert!(!cpu.ime);
    assert_eq!(cpu.set_ei, 1);
    assert_eq!(cpu.register.pc, 0x0102);
    assert_eq!(cpu.cycle(), Ok(20));
    assert_eq!(cpu.set_ei, 0);
    assert_eq!(cpu.register.pc, 0x0040);
    assert_eq!(cpu.interconnect.load16(cpu.register.sp), Ok(0x0102));
}

#[test]
fn disable_takes_effect_after_the_next_operation() {
    let mut cpu = cpu_with(&[0xF3, 0x00, 0x00]);
    cpu.ime = true;
    assert_eq!(cpu.cycle(), Ok(4));
    assert!(cpu.ime);
    assert_eq!(cpu.cycle(), Ok(4));
    assert!(cpu.ime);
    assert_eq!(cpu.cycle(), Ok(4));
    assert!(!cpu.ime);
}

#[test]
fn countdown_moves_once_per_step() {
    let mut cpu = cpu_with(&[0x00]);
    cpu.set_di = 2;
    cpu.set_ei = 1;
    cpu.update_ime();
    assert_eq!((cpu.set_di, cpu.set_ei, cpu.ime), (1, 0, true));
    cpu.update_ime();
    assert_eq!((cpu.set_di, cpu.set_ei, cpu.ime), (0, 0, false));
    cpu.update_ime();
    assert_eq!((cpu.set_di, cpu.set_ei, cpu.ime), (0, 0, false));
}

#[test]
fn unknown_opcode_is_fatal_and_keeps_the_program_counter() {
    let mut cpu = cpu_with(&[0x00, 0xD3]);
    assert_eq!(cpu.cycle(), Ok(4));
    let register = cpu.register;
    assert_eq!(
        cpu.cycle(),
        Err(Fault::Decode(DecodeError::UnknownOpcode { byte: 0xD3, pc: 0x0101 }))
    );
    assert_eq!(cpu.register, register);
    assert_eq!(
        cpu.run_next_instruction(),
        Err(Fault::Decode(DecodeError::UnknownOpcode { byte: 0xD3, pc: 0x0101 }))
    );
    assert_eq!(cpu.register.pc, 0x0101);
}

#[test]
fn prefix_is_fatal() {
    let mut cpu = cpu_with(&[0xCB, 0x37]);
    assert_eq!(cpu.cycle(), Err(Fault::Decode(DecodeError::UnsupportedPrefix)));
    assert_eq!(cpu.register.pc, 0x0100);
    assert_eq!(cpu.decode(0xCB), Err(Fault::Decode(DecodeError::UnsupportedPrefix)));
    assert_eq!(
        cpu.decode(0xD3),
        Err(Fault::Decode(DecodeError::UnknownOpcode { byte: 0xD3, pc: 0x00FF }))
    );
    assert_eq!(cpu.decode(0x00), Ok(4));
}

#[test]
fn fetch_from_unmapped_memory_is_fatal() {
    let mut cpu = cpu_with(&[0x00]);
    cpu.register.pc = 0x8000;
    assert_eq!(
        cpu.cycle(),
        Err(Fault::Bus(BusError::Unmapped { address: 0x8000, kind: AccessKind::Load }))
    );
    assert_eq!(cpu.register.pc, 0x8000);
}

#[test]
fn load_from_unmapped_memory_is_fatal() {
    let mut cpu = cpu_with(&[0x7E]);
    cpu.register.set_hl(0xFE00);
    let register = cpu.register;
    assert_eq!(
        cpu.cycle(),
        Err(Fault::Bus(BusError::Unmapped { address: 0xFE00, kind: AccessKind::Load }))
    );
    assert_eq!(cpu.register, register);
}

#[test]
fn execute_runs_one_operation() {
    let mut cpu = cpu_with(&[]);
    cpu.register.a = 0x0F;
    cpu.register.e = 0x01;
    assert_eq!(cpu.execute(Opcode::Add(Operand::Reg(Reg8::E))), Ok(4));
    assert_eq!(cpu.register.a, 0x10);
    assert_eq!(cpu.execute(Opcode::Push(StackPair::De)), Ok(16));
    assert_eq!(cpu.interconnect.load16(0xDFEE), Ok(0x0001));
    assert_eq!(cpu.execute(Opcode::Rst(Vector::V10)), Ok(16));
    assert_eq!(cpu.register.pc, 0x0010);
    assert_eq!(cpu.execute(Opcode::Ret), Ok(16));
    assert_eq!(cpu.register.pc, 0x0100);
    assert_eq!(cpu.execute(Opcode::Halt), Ok(4));
    assert!(cpu.halted);
}

#[test]
fn power_up_zeroes_the_timer_registers() {
    let mut cpu = cpu_with(&[0x00]);
    cpu.interconnect.store8(0xFF05, 0x12).unwrap();
    cpu.interconnect.store8(0xFF06, 0x34).unwrap();
    cpu.interconnect.store8(0xFF07, 0x07).unwrap();
    cpu.interconnect.set_interrupt_enable(0x1F);
    let register = cpu.register;
    cpu.power_up();
    assert_eq!(cpu.interconnect.load8(0xFF05), Ok(0));
    assert_eq!(cpu.interconnect.load8(0xFF06), Ok(0));
    assert_eq!(cpu.interconnect.load8(0xFF07), Ok(0));
    assert_eq!(cpu.interconnect.load8(0xFF40), Ok(0));
    assert_eq!(cpu.interconnect.interrupt_enable(), 0x1F);
    assert_eq!(cpu.register, register);
}

#[test]
fn clock_adds_up_the_steps() {
    let mut cpu = cpu_with(&[0x00, 0xC3, 0x00, 0x01]);
    assert_eq!(cpu.cycle(), Ok(4));
    assert_eq!(cpu.cycle(), Ok(16));
    assert_eq!(cpu.clock, Clock { m: 5, t: 20 });
    assert_eq!(cpu.register.pc, 0x0100);
}

#[test]
fn stepping_and_ticking_raise_the_timer_interrupt() {
    // jr -2 loops on itself while the timer runs towards its overflow.
    let mut program = vec![0u8; 0x100];
    program[0..3].copy_from_slice(&[0x00, 0x20, 0xFD]);
    let mut cpu = cpu_with(&program);
    cpu.register.flag = clear();
    cpu.ime = true;
    cpu.interconnect.set_interrupt_enable(0x04);
    cpu.interconnect.store8(0xFF05, 0xFF).unwrap();
    cpu.interconnect.store8(0xFF07, 0x05).unwrap();
    let mut served = false;
    for _ in 0..4 {
        cpu.advance().unwrap();
        if cpu.register.pc == 0x0050 {
            served = true;
            break;
        }
    }
    assert!(served);
    assert!(!cpu.ime);
    assert_eq!(cpu.interconnect.interrupt_flag(), 0x00);
}

#[test]
fn load16_and_store16_on_the_processor() {
    let mut cpu = cpu_with(&[0x34, 0x12]);
    assert_eq!(cpu.load16(0x0100), Ok(0x1234));
    assert_eq!(cpu.load8(0x0101), Ok(0x12));
    assert_eq!(cpu.store16(0xC000, 0xCAFE), Ok(()));
    assert_eq!(cpu.load16(0xC000), Ok(0xCAFE));
    assert_eq!(
        cpu.store16(0x0000, 1),
        Err(Fault::Bus(BusError::Unmapped { address: 0x0000, kind: AccessKind::Store }))
    );
    assert_eq!(
        cpu.load16(0x9FFF),
        Err(Fault::Bus(BusError::Unmapped { address: 0x9FFF, kind: AccessKind::Load }))
    );
}

#[test]
fn advance_steps_the_processor_and_the_timer() {
    let mut cpu = cpu_with(&[0x00, 0xC3, 0x00, 0x01]);
    cpu.interconnect.store8(0xFF07, 0x05).unwrap();
    assert_eq!(cpu.advance(), Ok(4));
    assert_eq!(cpu.interconnect.load8(0xFF05), Ok(0));
    assert_eq!(cpu.advance(), Ok(16));
    assert_eq!(cpu.interconnect.load8(0xFF05), Ok(1));
    assert_eq!(cpu.clock, Clock { m: 5, t: 20 });
    cpu.register.pc = 0x9000;
    assert_eq!(
        cpu.advance(),
        Err(Fault::Bus(BusError::Unmapped { address: 0x9000, kind: AccessKind::Load }))
    );
    assert_eq!(cpu.interconnect.load8(0xFF05), Ok(1));
    assert_eq!(cpu.clock, Clock { m: 5, t: 20 });
}
