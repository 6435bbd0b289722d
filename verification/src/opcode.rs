use vstd::prelude::*;
use crate::error::DecodeError;

verus! {

/// The byte that selects the extended operation page.
pub const PREFIX: u8 = 0xCB;

/// One of the seven 8-bit registers.
#[derive(Clone, Copy, Debug, PartialEq, Eq, Structural)]
pub enum Reg8 {
    B,
    C,
    D,
    E,
    H,
    L,
    A,
}

impl Reg8 {
    /// The three bits that name the register inside an operation byte.
    pub open spec fn index(self) -> int {
        match self {
            Reg8::B => 0,
            Reg8::C => 1,
            Reg8::D => 2,
            Reg8::E => 3,
            Reg8::H => 4,
            Reg8::L => 5,
            Reg8::A => 7,
        }
    }
}

/// Where an arithmetic or logical operation takes its second operand from.
#[derive(Clone, Copy, Debug, PartialEq, Eq, Structural)]
pub enum Operand {
    /// A register.
    Reg(Reg8),
    /// The byte at the address held in `hl`.
    Memory,
    /// The byte that follows the operation byte.
    Immediate,
}

/// A 16-bit register that takes an immediate load.
#[derive(Clone, Copy, Debug, PartialEq, Eq, Structural)]
pub enum Reg16 {
    Bc,
    De,
    Hl,
    Sp,
}

impl Reg16 {
    pub open spec fn index(self) -> int {
        match self {
            Reg16::Bc => 0,
            Reg16::De => 1,
            Reg16::Hl => 2,
            Reg16::Sp => 3,
        }
    }
}

/// A register pair that can be pushed.
#[derive(Clone, Copy, Debug, PartialEq, Eq, Structural)]
pub enum StackPair {
    Bc,
    De,
    Hl,
    Af,
}

impl StackPair {
    pub open spec fn index(self) -> int {
        match self {
            StackPair::Bc => 0,
            StackPair::De => 1,
            StackPair::Hl => 2,
            StackPair::Af => 3,
        }
    }
}

/// The test that a conditional jump or return makes on the flags.
#[derive(Clone, Copy, Debug, PartialEq, Eq, Structural)]
pub enum Condition {
    NotZero,
    Zero,
    NoCarry,
    Carry,
}

impl Condition {
    pub open spec fn index(self) -> int {
        match self {
            Condition::NotZero => 0,
            Condition::Zero => 1,
            Condition::NoCarry => 2,
            Condition::Carry => 3,
        }
    }
}

/// One of the eight fixed restart addresses.
#[derive(Clone, Copy, Debug, PartialEq, Eq, Structural)]
pub enum Vector {
    V00,
    V08,
    V10,
    V18,
    V20,
    V28,
    V30,
    V38,
}

impl Vector {
    /// The address that the restart jumps to.
    pub open spec fn spec_address(&self) -> u16 {
        match self {
            Vector::V00 => 0x00,
            Vector::V08 => 0x08,
            Vector::V10 => 0x10,
            Vector::V18 => 0x18,
            Vector::V20 => 0x20,
            Vector::V28 => 0x28,
            Vector::V30 => 0x30,
            Vector::V38 => 0x38,
        }
    }

    /// The address that the restart jumps to.
    #[verifier::when_used_as_spec(spec_address)]
    pub fn address(&self) -> (target: u16)
        ensures
            target == self.spec_address(),
    {
        match self {
            Vector::V00 => 0x00,
            Vector::V08 => 0x08,
            Vector::V10 => 0x10,
            Vector::V18 => 0x18,
            Vector::V20 => 0x20,
            Vector::V28 => 0x28,
            Vector::V30 => 0x30,
            Vector::V38 => 0x38,
        }
    }
}

/// An operation of the processor: what one operation byte asks for.
#[derive(Clone, Copy, Debug, PartialEq, Eq, Structural)]
pub enum Opcode {
    /// `nop`
    Nop,
    /// `ld rr,nn`: load a 16-bit register from the two bytes that follow.
    LdWide(Reg16),
    /// `ld r,r'`: copy the second register into the first.
    Ld(Reg8, Reg8),
    /// `ld r,(hl)`
    LdFromHl(Reg8),
    /// `ld (hl),r`
    LdToHl(Reg8),
    /// `ld (hl),n`
    LdHlImmediate,
    /// `ld a,n`
    LdAImmediate,
    /// `ld a,(bc)`
    LdAFromBc,
    /// `ld a,(de)`
    LdAFromDe,
    /// `ld a,(nn)`
    LdAFromAddress,
    /// `ld (bc),a`
    LdBcFromA,
    /// `ld (de),a`
    LdDeFromA,
    /// `ld (nn),a`
    LdAddressFromA,
    /// `ldh (n),a`: store `a` at 0xFF00 + n.
    LdhFromA,
    /// `ldh a,(n)`: load `a` from 0xFF00 + n.
    LdhToA,
    /// `add a,x`
    Add(Operand),
    /// `sub a,x`
    Sub(Operand),
    /// `xor a,x`
    Xor(Operand),
    /// `cp a,x`
    Cp(Operand),
    /// `push rr`
    Push(StackPair),
    /// `call nn`
    Call,
    /// `jp nn`
    JpAddress,
    /// `jp hl`
    JpHl,
    /// `di`
    Di,
    /// `ei`
    Ei,
    /// `rst v`
    Rst(Vector),
    /// `ret`
    Ret,
    /// `ret cc`
    RetIf(Condition),
    /// `jr cc,n`
    JrIf(Condition),
    /// `halt`
    Halt,
}

/// The families that the operations fall into.
#[derive(Clone, Copy, Debug, PartialEq, Eq, Structural)]
pub enum Family {
    /// Loads into a register, from a register, from memory or from the program.
    Load,
    /// Stores of a byte to memory.
    Store,
    /// Arithmetic and logic on the accumulator.
    Arithmetic,
    /// Stack operations, jumps, calls and returns.
    Flow,
    /// Operations that touch neither the registers nor memory.
    Control,
}

/// The operation byte of an arithmetic or logical operation whose register
/// forms start at `base`.
pub open spec fn operand_code(base: int, operand: Operand) -> int {
    match operand {
        Operand::Reg(r) => base + r.index(),
        Operand::Memory => base + 6,
        Operand::Immediate => base + 0x46,
    }
}

impl Opcode {
    /// The byte that stands for the operation.
    pub open spec fn code(self) -> u8 {
        (match self {
            Opcode::Nop => 0x00,
            Opcode::LdWide(rr) => 0x01 + 0x10 * rr.index(),
            Opcode::Ld(to, from) => 0x40 + 8 * to.index() + from.index(),
            Opcode::LdFromHl(to) => 0x46 + 8 * to.index(),
            Opcode::LdToHl(from) => 0x70 + from.index(),
            Opcode::LdHlImmediate => 0x36,
            Opcode::LdAImmediate => 0x3E,
            Opcode::LdAFromBc => 0x0A,
            Opcode::LdAFromDe => 0x1A,
            Opcode::LdAFromAddress => 0xFA,
            Opcode::LdBcFromA => 0x02,
            Opcode::LdDeFromA => 0x12,
            Opcode::LdAddressFromA => 0xEA,
            Opcode::LdhFromA => 0xE0,
            Opcode::LdhToA => 0xF0,
            Opcode::Add(x) => operand_code(0x80, x),
            Opcode::Sub(x) => operand_code(0x90, x),
            Opcode::Xor(x) => operand_code(0xA8, x),
            Opcode::Cp(x) => operand_code(0xB8, x),
            Opcode::Push(rr) => 0xC5 + 0x10 * rr.index(),
            Opcode::Call => 0xCD,
            Opcode::JpAddress => 0xC3,
            Opcode::JpHl => 0xE9,
            Opcode::Di => 0xF3,
            Opcode::Ei => 0xFB,
            Opcode::Rst(v) => 0xC7 + v.address(),
            Opcode::Ret => 0xC9,
            Opcode::RetIf(cc) => 0xC0 + 8 * cc.index(),
            Opcode::JrIf(cc) => 0x20 + 8 * cc.index(),
            Opcode::Halt => 0x76,
        }) as u8
    }

    /// Number of bytes that the operation takes up in the program: its own
    /// byte and the immediate bytes that follow it.
    pub open spec fn width(self) -> int {
        match self {
            Opcode::LdWide(_) | Opcode::LdAFromAddress | Opcode::LdAddressFromA | Opcode::Call
            | Opcode::JpAddress => 3,
            Opcode::LdHlImmediate | Opcode::LdAImmediate | Opcode::LdhFromA | Opcode::LdhToA
            | Opcode::JrIf(_) => 2,
            Opcode::Add(x) | Opcode::Sub(x) | Opcode::Xor(x) | Opcode::Cp(x) => if x
                is Immediate {
                2
            } else {
                1
            },
            _ => 1,
        }
    }

    /// The family that the operation belongs to.
    pub open spec fn spec_family(&self) -> Family {
        match self {
            Opcode::LdWide(_) | Opcode::Ld(_, _) | Opcode::LdFromHl(_) | Opcode::LdAImmediate | Opcode::LdAFromBc | Opcode::LdAFromDe | Opcode::LdAFromAddress | Opcode::LdhToA => Family::Load,
            Opcode::LdToHl(_) | Opcode::LdHlImmediate | Opcode::LdBcFromA | Opcode::LdDeFromA | Opcode::LdAddressFromA | Opcode::LdhFromA => Family::Store,
            Opcode::Add(_) | Opcode::Sub(_) | Opcode::Xor(_) | Opcode::Cp(_) => Family::Arithmetic,
            Opcode::Push(_) | Opcode::Call | Opcode::Rst(_) | Opcode::Ret | Opcode::RetIf(_) | Opcode::JrIf(_) | Opcode::JpAddress | Opcode::JpHl => Family::Flow,
            Opcode::Nop | Opcode::Di | Opcode::Ei | Opcode::Halt => Family::Control,
        }
    }

    /// The family that the operation belongs to.
    #[verifier::when_used_as_spec(spec_family)]
    pub fn family(&self) -> (family: Family)
        ensures
            family == self.spec_family(),
    {
        match self {
            Opcode::LdWide(_) | Opcode::Ld(_, _) | Opcode::LdFromHl(_) | Opcode::LdAImmediate | Opcode::LdAFromBc | Opcode::LdAFromDe | Opcode::LdAFromAddress | Opcode::LdhToA => Family::Load,
            Opcode::LdToHl(_) | Opcode::LdHlImmediate | Opcode::LdBcFromA | Opcode::LdDeFromA | Opcode::LdAddressFromA | Opcode::LdhFromA => Family::Store,
            Opcode::Add(_) | Opcode::Sub(_) | Opcode::Xor(_) | Opcode::Cp(_) => Family::Arithmetic,
            Opcode::Push(_) | Opcode::Call | Opcode::Rst(_) | Opcode::Ret | Opcode::RetIf(_) | Opcode::JrIf(_) | Opcode::JpAddress | Opcode::JpHl => Family::Flow,
            Opcode::Nop | Opcode::Di | Opcode::Ei | Opcode::Halt => Family::Control,
        }
    }

    /// Cycles that the operation takes. `taken` says whether a conditional
    /// operation found its condition true; the others pay no regard to it.
    pub open spec fn spec_cycles(&self, taken: bool) -> u32 {
        match self {
            Opcode::Nop | Opcode::Ld(_, _) | Opcode::JpHl | Opcode::Di | Opcode::Ei
            | Opcode::Halt => 4,
            Opcode::LdFromHl(_) | Opcode::LdToHl(_) | Opcode::LdAImmediate | Opcode::LdAFromBc
            | Opcode::LdAFromDe | Opcode::LdBcFromA | Opcode::LdDeFromA => 8,
            Opcode::LdWide(_) | Opcode::LdHlImmediate | Opcode::LdhFromA | Opcode::LdhToA => 12,
            Opcode::LdAFromAddress | Opcode::LdAddressFromA | Opcode::Push(_) | Opcode::JpAddress
            | Opcode::Rst(_) | Opcode::Ret => 16,
            Opcode::Call => 24,
            Opcode::Add(x) | Opcode::Sub(x) | Opcode::Xor(x) | Opcode::Cp(x) => if x is Reg {
                4
            } else {
                8
            },
            Opcode::RetIf(_) => if taken {
                20
            } else {
                8
            },
            Opcode::JrIf(_) => if taken {
                12
            } else {
                8
            },
        }
    }

    /// Cycles that the operation takes, given whether its condition was found true.
    #[verifier::when_used_as_spec(spec_cycles)]
    pub fn cycles(&self, taken: bool) -> (ticks: u32)
        ensures
            ticks == self.spec_cycles(taken),
            4 <= ticks <= 24,
    {
        match self {
            Opcode::Nop | Opcode::Ld(_, _) | Opcode::JpHl | Opcode::Di | Opcode::Ei
            | Opcode::Halt => 4,
            Opcode::LdFromHl(_) | Opcode::LdToHl(_) | Opcode::LdAImmediate | Opcode::LdAFromBc
            | Opcode::LdAFromDe | Opcode::LdBcFromA | Opcode::LdDeFromA => 8,
            Opcode::LdWide(_) | Opcode::LdHlImmediate | Opcode::LdhFromA | Opcode::LdhToA => 12,
            Opcode::LdAFromAddress | Opcode::LdAddressFromA | Opcode::Push(_) | Opcode::JpAddress
            | Opcode::Rst(_) | Opcode::Ret => 16,
            Opcode::Call => 24,
            Opcode::Add(x) | Opcode::Sub(x) | Opcode::Xor(x) | Opcode::Cp(x) => match x {
                Operand::Reg(_) => 4,
                _ => 8,
            },
            Opcode::RetIf(_) => if taken {
                20
            } else {
                8
            },
            Opcode::JrIf(_) => if taken {
                12
            } else {
                8
            },
        }
    }
}

/// The register that three bits of an operation byte name. Six names no
/// register: it stands for the byte at the address in `hl`.
pub open spec fn reg_at(index: int) -> Reg8 {
    if index == 0 {
        Reg8::B
    } else if index == 1 {
        Reg8::C
    } else if index == 2 {
        Reg8::D
    } else if index == 3 {
        Reg8::E
    } else if index == 4 {
        Reg8::H
    } else if index == 5 {
        Reg8::L
    } else {
        Reg8::A
    }
}

/// The operand that three bits of an arithmetic or logical operation byte name.
pub open spec fn operand_at(index: int) -> Operand {
    if index == 6 {
        Operand::Memory
    } else {
        Operand::Reg(reg_at(index))
    }
}

/// The register that an index names has that index.
pub proof fn lemma_reg_at(index: int)
    requires
        0 <= index < 8,
        index != 6,
    ensures
        reg_at(index).index() == index,
{
}

/// A register is the one that its index names, and no register has index six.
pub proof fn lemma_reg_index(r: Reg8)
    ensures
        reg_at(r.index()) == r,
        0 <= r.index() < 8,
        r.index() != 6,
{
}

/// The operand that an index names is encoded by that index.
pub proof fn lemma_operand_at(base: int, index: int)
    requires
        0 <= index < 8,
    ensures
        operand_code(base, operand_at(index)) == base + index,
{
    if index != 6 {
        lemma_reg_at(index);
    }
}

/// A register or memory operand is the one that its place behind `base` names.
pub proof fn lemma_operand_index(base: int, operand: Operand)
    ensures
        operand is Immediate ==> operand_code(base, operand) == base + 0x46,
        !(operand is Immediate) ==> base <= operand_code(base, operand) < base + 8 && operand_at(
            operand_code(base, operand) - base,
        ) == operand,
{
    match operand {
        Operand::Reg(r) => {
            lemma_reg_index(r);
        },
        _ => {},
    }
}

impl Opcode {
    /// The operation that a byte stands for, if it stands for one.
    pub open spec fn decode(byte: u8) -> Option<Opcode> {
        if byte == 0x76 {
            Some(Opcode::Halt)
        } else if 0x40 <= byte <= 0x7F {
            let to = (byte - 0x40) / 8;
            let from = (byte % 8) as int;
            if to == 6 {
                Some(Opcode::LdToHl(reg_at(from)))
            } else if from == 6 {
                Some(Opcode::LdFromHl(reg_at(to)))
            } else {
                Some(Opcode::Ld(reg_at(to), reg_at(from)))
            }
        } else if 0x80 <= byte <= 0x87 {
            Some(Opcode::Add(operand_at(byte - 0x80)))
        } else if 0x90 <= byte <= 0x97 {
            Some(Opcode::Sub(operand_at(byte - 0x90)))
        } else if 0xA8 <= byte <= 0xAF {
            Some(Opcode::Xor(operand_at(byte - 0xA8)))
        } else if 0xB8 <= byte <= 0xBF {
            Some(Opcode::Cp(operand_at(byte - 0xB8)))
        } else {
            match byte {
                0x00 => Some(Opcode::Nop),
                0x01 => Some(Opcode::LdWide(Reg16::Bc)),
                0x11 => Some(Opcode::LdWide(Reg16::De)),
                0x21 => Some(Opcode::LdWide(Reg16::Hl)),
                0x31 => Some(Opcode::LdWide(Reg16::Sp)),
                0x36 => Some(Opcode::LdHlImmediate),
                0x3E => Some(Opcode::LdAImmediate),
                0x0A => Some(Opcode::LdAFromBc),
                0x1A => Some(Opcode::LdAFromDe),
                0xFA => Some(Opcode::LdAFromAddress),
                0x02 => Some(Opcode::LdBcFromA),
                0x12 => Some(Opcode::LdDeFromA),
                0xEA => Some(Opcode::LdAddressFromA),
                0xE0 => Some(Opcode::LdhFromA),
                0xF0 => Some(Opcode::LdhToA),
                0xC6 => Some(Opcode::Add(Operand::Immediate)),
                0xD6 => Some(Opcode::Sub(Operand::Immediate)),
                0xEE => Some(Opcode::Xor(Operand::Immediate)),
                0xFE => Some(Opcode::Cp(Operand::Immediate)),
                0xC5 => Some(Opcode::Push(StackPair::Bc)),
                0xD5 => Some(Opcode::Push(StackPair::De)),
                0xE5 => Some(Opcode::Push(StackPair::Hl)),
                0xF5 => Some(Opcode::Push(StackPair::Af)),
                0xCD => Some(Opcode::Call),
                0xC3 => Some(Opcode::JpAddress),
                0xE9 => Some(Opcode::JpHl),
                0xF3 => Some(Opcode::Di),
                0xFB => Some(Opcode::Ei),
                0xC7 => Some(Opcode::Rst(Vector::V00)),
                0xCF => Some(Opcode::Rst(Vector::V08)),
                0xD7 => Some(Opcode::Rst(Vector::V10)),
                0xDF => Some(Opcode::Rst(Vector::V18)),
                0xE7 => Some(Opcode::Rst(Vector::V20)),
                0xEF => Some(Opcode::Rst(Vector::V28)),
                0xF7 => Some(Opcode::Rst(Vector::V30)),
                0xFF => Some(Opcode::Rst(Vector::V38)),
                0xC9 => Some(Opcode::Ret),
                0xC0 => Some(Opcode::RetIf(Condition::NotZero)),
                0xC8 => Some(Opcode::RetIf(Condition::Zero)),
                0xD0 => Some(Opcode::RetIf(Condition::NoCarry)),
                0xD8 => Some(Opcode::RetIf(Condition::Carry)),
                0x20 => Some(Opcode::JrIf(Condition::NotZero)),
                0x28 => Some(Opcode::JrIf(Condition::Zero)),
                0x30 => Some(Opcode::JrIf(Condition::NoCarry)),
                0x38 => Some(Opcode::JrIf(Condition::Carry)),
                _ => None,
            }
        }
    }

    /// What looking up a byte fetched at `pc` gives: the operation, or the
    /// reason why there is none.
    pub open spec fn decoded(value: u8, pc: u16) -> Result<Opcode, DecodeError> {
        match Opcode::decode(value) {
            Some(op) => Ok(op),
            None => if value == PREFIX {
                Err(DecodeError::UnsupportedPrefix)
            } else {
                Err(DecodeError::UnknownOpcode { byte: value, pc })
            },
        }
    }

    /// Every operation is found again under its own byte.
    pub proof fn lemma_decode_code(op: Opcode)
        ensures
            Opcode::decode(op.code()) == Some(op),
    {
        match op {
            Opcode::Ld(to, from) => {
                lemma_reg_index(to);
                lemma_reg_index(from);
                let byte = op.code();
                assert(byte == 0x40 + 8 * to.index() + from.index());
                assert((byte - 0x40) / 8 == to.index());
                assert(byte % 8 == from.index());
            },
            Opcode::LdFromHl(to) => {
                lemma_reg_index(to);
                let byte = op.code();
                assert(byte == 0x46 + 8 * to.index());
                assert((byte - 0x40) / 8 == to.index());
                assert(byte % 8 == 6);
            },
            Opcode::LdToHl(from) => {
                lemma_reg_index(from);
            },
            Opcode::Add(x) => {
                lemma_operand_index(0x80, x);
            },
            Opcode::Sub(x) => {
                lemma_operand_index(0x90, x);
            },
            Opcode::Xor(x) => {
                lemma_operand_index(0xA8, x);
            },
            Opcode::Cp(x) => {
                lemma_operand_index(0xB8, x);
            },
            Opcode::LdWide(rr) => {
                match rr {
                    Reg16::Bc => {},
                    Reg16::De => {},
                    Reg16::Hl => {},
                    Reg16::Sp => {},
                }
            },
            Opcode::Push(rr) => {
                match rr {
                    StackPair::Bc => {},
                    StackPair::De => {},
                    StackPair::Hl => {},
                    StackPair::Af => {},
                }
            },
            Opcode::Rst(v) => {
                match v {
                    Vector::V00 => {},
                    Vector::V08 => {},
                    Vector::V10 => {},
                    Vector::V18 => {},
                    Vector::V20 => {},
                    Vector::V28 => {},
                    Vector::V30 => {},
                    Vector::V38 => {},
                }
            },
            Opcode::RetIf(cc) => {
                match cc {
                    Condition::NotZero => {},
                    Condition::Zero => {},
                    Condition::NoCarry => {},
                    Condition::Carry => {},
                }
            },
            Opcode::JrIf(cc) => {
                match cc {
                    Condition::NotZero => {},
                    Condition::Zero => {},
                    Condition::NoCarry => {},
                    Condition::Carry => {},
                }
            },
            _ => {},
        }
    }

    /// A byte that stands for an operation is that operation's byte, and a
    /// byte that stands for none is no operation's byte.
    pub proof fn lemma_code_decode(byte: u8)
        ensures
            match Opcode::decode(byte) {
                Some(op) => op.code() == byte,
                None => forall|op: Opcode| op.code() != byte,
            },
    {
        if Opcode::decode(byte) is None {
            assert forall|op: Opcode| op.code() != byte by {
                Opcode::lemma_decode_code(op);
            }
        } else if 0x40 <= byte <= 0x7F {
            Opcode::lemma_code_decode_load(byte);
        } else if 0x80 <= byte <= 0xBF {
            Opcode::lemma_code_decode_arithmetic(byte);
        } else {
            Opcode::lemma_code_decode_single(byte);
        }
    }

    proof fn lemma_code_decode_load(byte: u8)
        requires
            0x40 <= byte <= 0x7F,
        ensures
            Opcode::decode(byte) is Some,
            Opcode::decode(byte)->0.code() == byte,
    {
        if byte != 0x76 {
            let to = (byte - 0x40) / 8;
            let from = (byte % 8) as int;
            assert(byte == 0x40 + 8 * to + from);
            if to == 6 {
                lemma_reg_at(from);
                assert(Opcode::decode(byte) == Some(Opcode::LdToHl(reg_at(from))));
            } else if from == 6 {
                lemma_reg_at(to);
                assert(Opcode::decode(byte) == Some(Opcode::LdFromHl(reg_at(to))));
            } else {
                lemma_reg_at(to);
                lemma_reg_at(from);
                assert(Opcode::decode(byte) == Some(Opcode::Ld(reg_at(to), reg_at(from))));
            }
        }
    }

    proof fn lemma_code_decode_arithmetic(byte: u8)
        requires
            0x80 <= byte <= 0xBF,
        ensures
            match Opcode::decode(byte) {
                Some(op) => op.code() == byte,
                None => true,
            },
    {
        if 0x80 <= byte <= 0x87 {
            lemma_operand_at(0x80, byte - 0x80);
        } else if 0x90 <= byte <= 0x97 {
            lemma_operand_at(0x90, byte - 0x90);
        } else if 0xA8 <= byte <= 0xAF {
            lemma_operand_at(0xA8, byte - 0xA8);
        } else if 0xB8 <= byte <= 0xBF {
            lemma_operand_at(0xB8, byte - 0xB8);
        }
    }

    proof fn lemma_code_decode_single(byte: u8)
        requires
            byte < 0x40 || byte > 0xBF,
        ensures
            match Opcode::decode(byte) {
                Some(op) => op.code() == byte,
                None => true,
            },
    {
        if byte == 0x00 {
            assert(Opcode::Nop.code() == 0x00);
        } else if byte == 0x01 {
            assert(Opcode::LdWide(Reg16::Bc).code() == 0x01);
        } else if byte == 0x11 {
            assert(Opcode::LdWide(Reg16::De).code() == 0x11);
        } else if byte == 0x21 {
            assert(Opcode::LdWide(Reg16::Hl).code() == 0x21);
        } else if byte == 0x31 {
            assert(Opcode::LdWide(Reg16::Sp).code() == 0x31);
        } else if byte == 0x36 {
            assert(Opcode::LdHlImmediate.code() == 0x36);
        } else if byte == 0x3E {
            assert(Opcode::LdAImmediate.code() == 0x3E);
        } else if byte == 0x0A {
            assert(Opcode::LdAFromBc.code() == 0x0A);
        } else if byte == 0x1A {
            assert(Opcode::LdAFromDe.code() == 0x1A);
        } else if byte == 0xFA {
            assert(Opcode::LdAFromAddress.code() == 0xFA);
        } else if byte == 0x02 {
            assert(Opcode::LdBcFromA.code() == 0x02);
        } else if byte == 0x12 {
            assert(Opcode::LdDeFromA.code() == 0x12);
        } else if byte == 0xEA {
            assert(Opcode::LdAddressFromA.code() == 0xEA);
        } else if byte == 0xE0 {
            assert(Opcode::LdhFromA.code() == 0xE0);
        } else if byte == 0xF0 {
            assert(Opcode::LdhToA.code() == 0xF0);
        } else if byte == 0xC6 {
            assert(Opcode::Add(Operand::Immediate).code() == 0xC6);
        } else if byte == 0xD6 {
            assert(Opcode::Sub(Operand::Immediate).code() == 0xD6);
        } else if byte == 0xEE {
            assert(Opcode::Xor(Operand::Immediate).code() == 0xEE);
        } else if byte == 0xFE {
            assert(Opcode::Cp(Operand::Immediate).code() == 0xFE);
        } else if byte == 0xC5 {
            assert(Opcode::Push(StackPair::Bc).code() == 0xC5);
        } else if byte == 0xD5 {
            assert(Opcode::Push(StackPair::De).code() == 0xD5);
        } else if byte == 0xE5 {
            assert(Opcode::Push(StackPair::Hl).code() == 0xE5);
        } else if byte == 0xF5 {
            assert(Opcode::Push(StackPair::Af).code() == 0xF5);
        } else if byte == 0xCD {
            assert(Opcode::Call.code() == 0xCD);
        } else if byte == 0xC3 {
            assert(Opcode::JpAddress.code() == 0xC3);
        } else if byte == 0xE9 {
            assert(Opcode::JpHl.code() == 0xE9);
        } else if byte == 0xF3 {
            assert(Opcode::Di.code() == 0xF3);
        } else if byte == 0xFB {
            assert(Opcode::Ei.code() == 0xFB);
        } else if byte == 0xC7 {
            assert(Opcode::Rst(Vector::V00).code() == 0xC7);
        } else if byte == 0xCF {
            assert(Opcode::Rst(Vector::V08).code() == 0xCF);
        } else if byte == 0xD7 {
            assert(Opcode::Rst(Vector::V10).code() == 0xD7);
        } else if byte == 0xDF {
            assert(Opcode::Rst(Vector::V18).code() == 0xDF);
        } else if byte == 0xE7 {
            assert(Opcode::Rst(Vector::V20).code() == 0xE7);
        } else if byte == 0xEF {
            assert(Opcode::Rst(Vector::V28).code() == 0xEF);
        } else if byte == 0xF7 {
            assert(Opcode::Rst(Vector::V30).code() == 0xF7);
        } else if byte == 0xFF {
            assert(Opcode::Rst(Vector::V38).code() == 0xFF);
        } else if byte == 0xC9 {
            assert(Opcode::Ret.code() == 0xC9);
        } else if byte == 0xC0 {
            assert(Opcode::RetIf(Condition::NotZero).code() == 0xC0);
        } else if byte == 0xC8 {
            assert(Opcode::RetIf(Condition::Zero).code() == 0xC8);
        } else if byte == 0xD0 {
            assert(Opcode::RetIf(Condition::NoCarry).code() == 0xD0);
        } else if byte == 0xD8 {
            assert(Opcode::RetIf(Condition::Carry).code() == 0xD8);
        } else if byte == 0x20 {
            assert(Opcode::JrIf(Condition::NotZero).code() == 0x20);
        } else if byte == 0x28 {
            assert(Opcode::JrIf(Condition::Zero).code() == 0x28);
        } else if byte == 0x30 {
            assert(Opcode::JrIf(Condition::NoCarry).code() == 0x30);
        } else if byte == 0x38 {
            assert(Opcode::JrIf(Condition::Carry).code() == 0x38);
        }
    }

    /// No two operations share a byte.
    pub proof fn lemma_code_injective(first: Opcode, second: Opcode)
        requires
            first.code() == second.code(),
        ensures
            first == second,
    {
        Opcode::lemma_decode_code(first);
        Opcode::lemma_decode_code(second);
    }

    /// The prefix byte stands for no operation.
    pub proof fn lemma_prefix_undefined()
        ensures
            Opcode::decode(PREFIX) is None,
    {
    }

    /// Looks up the operation that `value`, fetched at `pc`, stands for.
    pub fn find(value: u8, pc: u16) -> (found: Result<Opcode, DecodeError>)
        ensures
            found == Opcode::decoded(value, pc),
    {
        match value {
            0x00 => Ok(Opcode::Nop),
            0x01 => Ok(Opcode::LdWide(Reg16::Bc)),
            0x02 => Ok(Opcode::LdBcFromA),
            0x0A => Ok(Opcode::LdAFromBc),
            0x11 => Ok(Opcode::LdWide(Reg16::De)),
            0x12 => Ok(Opcode::LdDeFromA),
            0x1A => Ok(Opcode::LdAFromDe),
            0x20 => Ok(Opcode::JrIf(Condition::NotZero)),
            0x21 => Ok(Opcode::LdWide(Reg16::Hl)),
            0x28 => Ok(Opcode::JrIf(Condition::Zero)),
            0x30 => Ok(Opcode::JrIf(Condition::NoCarry)),
            0x31 => Ok(Opcode::LdWide(Reg16::Sp)),
            0x36 => Ok(Opcode::LdHlImmediate),
            0x38 => Ok(Opcode::JrIf(Condition::Carry)),
            0x3E => Ok(Opcode::LdAImmediate),
            0x40 => Ok(Opcode::Ld(Reg8::B, Reg8::B)),
            0x41 => Ok(Opcode::Ld(Reg8::B, Reg8::C)),
            0x42 => Ok(Opcode::Ld(Reg8::B, Reg8::D)),
            0x43 => Ok(Opcode::Ld(Reg8::B, Reg8::E)),
            0x44 => Ok(Opcode::Ld(Reg8::B, Reg8::H)),
            0x45 => Ok(Opcode::Ld(Reg8::B, Reg8::L)),
            0x46 => Ok(Opcode::LdFromHl(Reg8::B)),
            0x47 => Ok(Opcode::Ld(Reg8::B, Reg8::A)),
            0x48 => Ok(Opcode::Ld(Reg8::C, Reg8::B)),
            0x49 => Ok(Opcode::Ld(Reg8::C, Reg8::C)),
            0x4A => Ok(Opcode::Ld(Reg8::C, Reg8::D)),
            0x4B => Ok(Opcode::Ld(Reg8::C, Reg8::E)),
            0x4C => Ok(Opcode::Ld(Reg8::C, Reg8::H)),
            0x4D => Ok(Opcode::Ld(Reg8::C, Reg8::L)),
            0x4E => Ok(Opcode::LdFromHl(Reg8::C)),
            0x4F => Ok(Opcode::Ld(Reg8::C, Reg8::A)),
            0x50 => Ok(Opcode::Ld(Reg8::D, Reg8::B)),
            0x51 => Ok(Opcode::Ld(Reg8::D, Reg8::C)),
            0x52 => Ok(Opcode::Ld(Reg8::D, Reg8::D)),
            0x53 => Ok(Opcode::Ld(Reg8::D, Reg8::E)),
            0x54 => Ok(Opcode::Ld(Reg8::D, Reg8::H)),
            0x55 => Ok(Opcode::Ld(Reg8::D, Reg8::L)),
            0x56 => Ok(Opcode::LdFromHl(Reg8::D)),
            0x57 => Ok(Opcode::Ld(Reg8::D, Reg8::A)),
            0x58 => Ok(Opcode::Ld(Reg8::E, Reg8::B)),
            0x59 => Ok(Opcode::Ld(Reg8::E, Reg8::C)),
            0x5A => Ok(Opcode::Ld(Reg8::E, Reg8::D)),
            0x5B => Ok(Opcode::Ld(Reg8::E, Reg8::E)),
            0x5C => Ok(Opcode::Ld(Reg8::E, Reg8::H)),
            0x5D => Ok(Opcode::Ld(Reg8::E, Reg8::L)),
            0x5E => Ok(Opcode::LdFromHl(Reg8::E)),
            0x5F => Ok(Opcode::Ld(Reg8::E, Reg8::A)),
            0x60 => Ok(Opcode::Ld(Reg8::H, Reg8::B)),
            0x61 => Ok(Opcode::Ld(Reg8::H, Reg8::C)),
            0x62 => Ok(Opcode::Ld(Reg8::H, Reg8::D)),
            0x63 => Ok(Opcode::Ld(Reg8::H, Reg8::E)),
            0x64 => Ok(Opcode::Ld(Reg8::H, Reg8::H)),
            0x65 => Ok(Opcode::Ld(Reg8::H, Reg8::L)),
            0x66 => Ok(Opcode::LdFromHl(Reg8::H)),
            0x67 => Ok(Opcode::Ld(Reg8::H, Reg8::A)),
            0x68 => Ok(Opcode::Ld(Reg8::L, Reg8::B)),
            0x69 => Ok(Opcode::Ld(Reg8::L, Reg8::C)),
            0x6A => Ok(Opcode::Ld(Reg8::L, Reg8::D)),
            0x6B => Ok(Opcode::Ld(Reg8::L, Reg8::E)),
            0x6C => Ok(Opcode::Ld(Reg8::L, Reg8::H)),
            0x6D => Ok(Opcode::Ld(Reg8::L, Reg8::L)),
            0x6E => Ok(Opcode::LdFromHl(Reg8::L)),
            0x6F => Ok(Opcode::Ld(Reg8::L, Reg8::A)),
            0x70 => Ok(Opcode::LdToHl(Reg8::B)),
            0x71 => Ok(Opcode::LdToHl(Reg8::C)),
            0x72 => Ok(Opcode::LdToHl(Reg8::D)),
            0x73 => Ok(Opcode::LdToHl(Reg8::E)),
            0x74 => Ok(Opcode::LdToHl(Reg8::H)),
            0x75 => Ok(Opcode::LdToHl(Reg8::L)),
            0x76 => Ok(Opcode::Halt),
            0x77 => Ok(Opcode::LdToHl(Reg8::A)),
            0x78 => Ok(Opcode::Ld(Reg8::A, Reg8::B)),
            0x79 => Ok(Opcode::Ld(Reg8::A, Reg8::C)),
            0x7A => Ok(Opcode::Ld(Reg8::A, Reg8::D)),
            0x7B => Ok(Opcode::Ld(Reg8::A, Reg8::E)),
            0x7C => Ok(Opcode::Ld(Reg8::A, Reg8::H)),
            0x7D => Ok(Opcode::Ld(Reg8::A, Reg8::L)),
            0x7E => Ok(Opcode::LdFromHl(Reg8::A)),
            0x7F => Ok(Opcode::Ld(Reg8::A, Reg8::A)),
            0x80 => Ok(Opcode::Add(Operand::Reg(Reg8::B))),
            0x81 => Ok(Opcode::Add(Operand::Reg(Reg8::C))),
            0x82 => Ok(Opcode::Add(Operand::Reg(Reg8::D))),
            0x83 => Ok(Opcode::Add(Operand::Reg(Reg8::E))),
            0x84 => Ok(Opcode::Add(Operand::Reg(Reg8::H))),
            0x85 => Ok(Opcode::Add(Operand::Reg(Reg8::L))),
            0x86 => Ok(Opcode::Add(Operand::Memory)),
            0x87 => Ok(Opcode::Add(Operand::Reg(Reg8::A))),
            0x90 => Ok(Opcode::Sub(Operand::Reg(Reg8::B))),
            0x91 => Ok(Opcode::Sub(Operand::Reg(Reg8::C))),
            0x92 => Ok(Opcode::Sub(Operand::Reg(Reg8::D))),
            0x93 => Ok(Opcode::Sub(Operand::Reg(Reg8::E))),
            0x94 => Ok(Opcode::Sub(Operand::Reg(Reg8::H))),
            0x95 => Ok(Opcode::Sub(Operand::Reg(Reg8::L))),
            0x96 => Ok(Opcode::Sub(Operand::Memory)),
            0x97 => Ok(Opcode::Sub(Operand::Reg(Reg8::A))),
            0xA8 => Ok(Opcode::Xor(Operand::Reg(Reg8::B))),
            0xA9 => Ok(Opcode::Xor(Operand::Reg(Reg8::C))),
            0xAA => Ok(Opcode::Xor(Operand::Reg(Reg8::D))),
            0xAB => Ok(Opcode::Xor(Operand::Reg(Reg8::E))),
            0xAC => Ok(Opcode::Xor(Operand::Reg(Reg8::H))),
            0xAD => Ok(Opcode::Xor(Operand::Reg(Reg8::L))),
            0xAE => Ok(Opcode::Xor(Operand::Memory)),
            0xAF => Ok(Opcode::Xor(Operand::Reg(Reg8::A))),
            0xB8 => Ok(Opcode::Cp(Operand::Reg(Reg8::B))),
            0xB9 => Ok(Opcode::Cp(Operand::Reg(Reg8::C))),
            0xBA => Ok(Opcode::Cp(Operand::Reg(Reg8::D))),
            0xBB => Ok(Opcode::Cp(Operand::Reg(Reg8::E))),
            0xBC => Ok(Opcode::Cp(Operand::Reg(Reg8::H))),
            0xBD => Ok(Opcode::Cp(Operand::Reg(Reg8::L))),
            0xBE => Ok(Opcode::Cp(Operand::Memory)),
            0xBF => Ok(Opcode::Cp(Operand::Reg(Reg8::A))),
            0xC0 => Ok(Opcode::RetIf(Condition::NotZero)),
            0xC3 => Ok(Opcode::JpAddress),
            0xC5 => Ok(Opcode::Push(StackPair::Bc)),
            0xC6 => Ok(Opcode::Add(Operand::Immediate)),
            0xC7 => Ok(Opcode::Rst(Vector::V00)),
            0xC8 => Ok(Opcode::RetIf(Condition::Zero)),
            0xC9 => Ok(Opcode::Ret),
            0xCD => Ok(Opcode::Call),
            0xCF => Ok(Opcode::Rst(Vector::V08)),
            0xD0 => Ok(Opcode::RetIf(Condition::NoCarry)),
            0xD5 => Ok(Opcode::Push(StackPair::De)),
            0xD6 => Ok(Opcode::Sub(Operand::Immediate)),
            0xD7 => Ok(Opcode::Rst(Vector::V10)),
            0xD8 => Ok(Opcode::RetIf(Condition::Carry)),
            0xDF => Ok(Opcode::Rst(Vector::V18)),
            0xE0 => Ok(Opcode::LdhFromA),
            0xE5 => Ok(Opcode::Push(StackPair::Hl)),
            0xE7 => Ok(Opcode::Rst(Vector::V20)),
            0xE9 => Ok(Opcode::JpHl),
            0xEA => Ok(Opcode::LdAddressFromA),
            0xEE => Ok(Opcode::Xor(Operand::Immediate)),
            0xEF => Ok(Opcode::Rst(Vector::V28)),
            0xF0 => Ok(Opcode::LdhToA),
            0xF3 => Ok(Opcode::Di),
            0xF5 => Ok(Opcode::Push(StackPair::Af)),
            0xF7 => Ok(Opcode::Rst(Vector::V30)),
            0xFA => Ok(Opcode::LdAFromAddress),
            0xFB => Ok(Opcode::Ei),
            0xFE => Ok(Opcode::Cp(Operand::Immediate)),
            0xFF => Ok(Opcode::Rst(Vector::V38)),
            0xCB => Err(DecodeError::UnsupportedPrefix),
            _ => Err(DecodeError::UnknownOpcode { byte: value, pc }),
        }
    }
}

} // verus!
