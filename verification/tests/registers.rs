use gameboy::clock::Clock;
use gameboy::opcode::{Reg16, Reg8, StackPair};
use gameboy::register::{Flag, Register};
use gameboy::word::{high_byte, join, low_byte};

#[test]
fn power_on_values() {
    let r = Register::new();
    assert_eq!(r.a, 0x01);
    assert_eq!(r.f(), 0xB0);
    assert_eq!(r.af(), 0x01B0);
    assert_eq!(r.bc(), 0x0013);
    assert_eq!(r.de(), 0x00D8);
    assert_eq!(r.hl(), 0x014D);
    assert_eq!(r.pc, 0x0100);
    assert_eq!(r.sp, 0xFFFE);
    assert_eq!(r.flag, Flag { z: true, n: false, h: true, c: true });
}

#[test]
fn new_flags_are_clear() {
    assert_eq!(Flag::new(), Flag { z: false, n: false, h: false, c: false });
    assert_eq!(Flag::new().to_byte(), 0x00);
}

#[test]
fn new_clock_is_zero() {
    let c = Clock::new();
    assert_eq!((c.m, c.t), (0, 0));
}

#[test]
fn clock_counts_and_wraps() {
    let mut c = Clock::new();
    c.tick(24);
    assert_eq!((c.m, c.t), (6, 24));
    let mut c = Clock { m: 0xFFFF, t: 0xFFFE };
    c.tick(8);
    assert_eq!((c.m, c.t), (1, 6));
}

#[test]
fn pair_round_trip_bc_de_hl() {
    let mut r = Register::new();
    for v in 0..=0xFFFFu16 {
        r.set_bc(v);
        assert_eq!(r.bc(), v);
        r.set_de(v);
        assert_eq!(r.de(), v);
        r.set_hl(v);
        assert_eq!(r.hl(), v);
    }
}

#[test]
fn pair_round_trip_af_masks_low_nibble() {
    let mut r = Register::new();
    for v in 0..=0xFFFFu16 {
        r.set_af(v);
        assert_eq!(r.af(), v & 0xFFF0);
        assert_eq!(r.f() & 0x0F, 0);
    }
}

#[test]
fn pairs_are_high_byte_first() {
    let mut r = Register::new();
    r.set_bc(0x1234);
    assert_eq!((r.b, r.c), (0x12, 0x34));
    r.set_de(0x5678);
    assert_eq!((r.d, r.e), (0x56, 0x78));
    r.set_hl(0x9ABC);
    assert_eq!((r.h, r.l), (0x9A, 0xBC));
    r.set_af(0xDEF0);
    assert_eq!(r.a, 0xDE);
    assert_eq!(r.flag, Flag { z: true, n: true, h: true, c: true });
}

#[test]
fn setting_a_pair_leaves_the_rest() {
    let mut r = Register::new();
    let before = r;
    r.set_bc(0xBEEF);
    assert_eq!(r, Register { b: 0xBE, c: 0xEF, ..before });
}

#[test]
fn flag_byte_layout() {
    assert_eq!(Flag { z: true, n: false, h: false, c: false }.to_byte(), 0x80);
    assert_eq!(Flag { z: false, n: true, h: false, c: false }.to_byte(), 0x40);
    assert_eq!(Flag { z: false, n: false, h: true, c: false }.to_byte(), 0x20);
    assert_eq!(Flag { z: false, n: false, h: false, c: true }.to_byte(), 0x10);
    assert_eq!(Flag::from_byte(0x5F), Flag { z: false, n: true, h: false, c: true });
    for b in 0..=0xFFu8 {
        assert_eq!(Flag::from_byte(b).to_byte(), b & 0xF0);
    }
}

#[test]
fn registers_by_name() {
    let mut r = Register::new();
    r.write(Reg8::D, 0x77);
    assert_eq!(r.d, 0x77);
    assert_eq!(r.read(Reg8::D), 0x77);
    assert_eq!(r.read(Reg8::A), 0x01);
    r.write_wide(Reg16::Sp, 0xC000);
    assert_eq!(r.sp, 0xC000);
    r.write_wide(Reg16::Hl, 0x8001);
    assert_eq!(r.hl(), 0x8001);
    assert_eq!(r.pushed(StackPair::Af), 0x01B0);
    assert_eq!(r.pushed(StackPair::Hl), 0x8001);
}

#[test]
fn words_split_and_join() {
    assert_eq!(join(0x12, 0x34), 0x1234);
    assert_eq!(high_byte(0xABCD), 0xAB);
    assert_eq!(low_byte(0xABCD), 0xCD);
    assert_eq!(join(0xFF, 0xFF), 0xFFFF);
}
