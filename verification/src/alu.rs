use vstd::prelude::*;
use crate::opcode::Condition;
use crate::register::Flag;

verus! {

/// The sum of two bytes, cut to eight bits, and the flags of the addition:
/// half-carry is the carry out of bit 3, carry the carry out of bit 7.
pub open spec fn add8(a: u8, b: u8) -> (u8, Flag) {
    let value = ((a + b) % 256) as u8;
    (value, Flag { z: value == 0, n: false, h: a % 16 + b % 16 > 15, c: a + b > 255 })
}

/// The difference of two bytes, cut to eight bits, and the flags of the
/// subtraction: half-carry is the borrow from bit 4, carry the borrow from bit 8.
pub open spec fn sub8(a: u8, b: u8) -> (u8, Flag) {
    let value = ((a - b) % 256) as u8;
    (value, Flag { z: value == 0, n: true, h: a % 16 < b % 16, c: a < b })
}

/// The exclusive or of two bytes and its flags: only zero can be set.
pub open spec fn xor8(a: u8, b: u8) -> (u8, Flag) {
    let value = a ^ b;
    (value, Flag { z: value == 0, n: false, h: false, c: false })
}

/// A displacement byte read as a signed number.
pub open spec fn signed(displacement: u8) -> int {
    if displacement < 128 {
        displacement as int
    } else {
        displacement - 256
    }
}

/// The address that lies `displacement`, read as a signed number, from `pc`,
/// going round at the ends of the address space.
pub open spec fn relative(pc: u16, displacement: u8) -> u16 {
    ((pc + signed(displacement)) % 0x10000) as u16
}

/// Whether the flags meet a condition.
pub open spec fn holds(condition: Condition, flag: Flag) -> bool {
    match condition {
        Condition::NotZero => !flag.z,
        Condition::Zero => flag.z,
        Condition::NoCarry => !flag.c,
        Condition::Carry => flag.c,
    }
}

/// Adds two bytes and gives the flags of the addition.
#[verifier::when_used_as_spec(add8)]
pub fn alu_add(a: u8, b: u8) -> (out: (u8, Flag))
    ensures
        out == add8(a, b),
{
    let value: u8 = a.wrapping_add(b);
    let wide: u16 = a as u16 + b as u16;
    (value, Flag { z: value == 0, n: false, h: a % 16 + b % 16 > 15, c: wide > 255 })
}

/// Subtracts `b` from `a` and gives the flags of the subtraction.
#[verifier::when_used_as_spec(sub8)]
pub fn alu_sub(a: u8, b: u8) -> (out: (u8, Flag))
    ensures
        out == sub8(a, b),
{
    let value: u8 = a.wrapping_sub(b);
    (value, Flag { z: value == 0, n: true, h: a % 16 < b % 16, c: a < b })
}

/// Combines two bytes by exclusive or and gives the flags.
#[verifier::when_used_as_spec(xor8)]
pub fn alu_xor(a: u8, b: u8) -> (out: (u8, Flag))
    ensures
        out == xor8(a, b),
{
    let value: u8 = a ^ b;
    (value, Flag { z: value == 0, n: false, h: false, c: false })
}

/// The target of a relative jump whose displacement byte is followed by `pc`.
#[verifier::when_used_as_spec(relative)]
pub fn jump_target(pc: u16, displacement: u8) -> (target: u16)
    ensures
        target == relative(pc, displacement),
{
    if displacement < 128 {
        pc.wrapping_add(displacement as u16)
    } else {
        pc.wrapping_sub(256 - displacement as u16)
    }
}

/// Tests a condition on the flags.
#[verifier::when_used_as_spec(holds)]
pub fn condition_holds(condition: Condition, flag: Flag) -> (met: bool)
    ensures
        met == holds(condition, flag),
{
    match condition {
        Condition::NotZero => !flag.z,
        Condition::Zero => flag.z,
        Condition::NoCarry => !flag.c,
        Condition::Carry => flag.c,
    }
}

} // verus!
