use gameboy::alu::{alu_add, alu_sub, alu_xor, condition_holds, jump_target};
use gameboy::opcode::Condition;
use gameboy::register::Flag;

#[test]
fn add_sets_half_carry() {
    let (value, flag) = alu_add(0x0F, 0x01);
    assert_eq!(value, 0x10);
    assert_eq!(flag, Flag { z: false, n: false, h: true, c: false });
}

#[test]
fn add_carry_is_out_of_bit_seven() {
    // 0x10 + 0x10 passes the nibble boundary of the sum but not the byte boundary.
    let (value, flag) = alu_add(0x10, 0x10);
    assert_eq!(value, 0x20);
    assert_eq!(flag, Flag { z: false, n: false, h: false, c: false });
    let (value, flag) = alu_add(0xFF, 0x01);
    assert_eq!(value, 0x00);
    assert_eq!(flag, Flag { z: true, n: false, h: true, c: true });
    let (value, flag) = alu_add(0xF0, 0x20);
    assert_eq!(value, 0x10);
    assert_eq!(flag, Flag { z: false, n: false, h: false, c: true });
}

#[test]
fn sub_borrows() {
    let (value, flag) = alu_sub(0x00, 0x01);
    assert_eq!(value, 0xFF);
    assert_eq!(flag, Flag { z: false, n: true, h: true, c: true });
    let (value, flag) = alu_sub(0x42, 0x42);
    assert_eq!(value, 0x00);
    assert_eq!(flag, Flag { z: true, n: true, h: false, c: false });
    let (value, flag) = alu_sub(0x20, 0x01);
    assert_eq!(value, 0x1F);
    assert_eq!(flag, Flag { z: false, n: true, h: true, c: false });
}

#[test]
fn xor_only_sets_zero() {
    assert_eq!(alu_xor(0xAA, 0xAA), (0x00, Flag { z: true, n: false, h: false, c: false }));
    assert_eq!(alu_xor(0xF0, 0x0F), (0xFF, Flag { z: false, n: false, h: false, c: false }));
}

#[test]
fn add_and_sub_agree_with_wide_arithmetic() {
    for a in 0..=255u16 {
        for b in 0..=255u16 {
            let (sum, f) = alu_add(a as u8, b as u8);
            assert_eq!(sum as u16, (a + b) & 0xFF);
            assert_eq!(f.c, a + b > 0xFF);
            assert_eq!(f.h, (a & 0xF) + (b & 0xF) > 0xF);
            assert_eq!(f.z, (a + b) & 0xFF == 0);
            assert!(!f.n);
            let (diff, f) = alu_sub(a as u8, b as u8);
            assert_eq!(diff as u16, a.wrapping_sub(b) & 0xFF);
            assert_eq!(f.c, a < b);
            assert_eq!(f.h, (a & 0xF) < (b & 0xF));
            assert!(f.n);
        }
    }
}

#[test]
fn relative_targets() {
    assert_eq!(jump_target(0x0102, 0xFE), 0x0100);
    assert_eq!(jump_target(0x0102, 0x00), 0x0102);
    assert_eq!(jump_target(0x0102, 0x7F), 0x0181);
    assert_eq!(jump_target(0x0102, 0x80), 0x0082);
    assert_eq!(jump_target(0x0001, 0xFE), 0xFFFF);
    assert_eq!(jump_target(0xFFFF, 0x02), 0x0001);
}

#[test]
fn conditions_read_zero_and_carry() {
    let z = Flag { z: true, n: false, h: false, c: false };
    let c = Flag { z: false, n: false, h: false, c: true };
    assert!(condition_holds(Condition::Zero, z));
    assert!(!condition_holds(Condition::NotZero, z));
    assert!(condition_holds(Condition::NoCarry, z));
    assert!(!condition_holds(Condition::Carry, z));
    assert!(condition_holds(Condition::Carry, c));
    assert!(condition_holds(Condition::NotZero, c));
}
