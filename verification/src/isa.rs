//! The LEG instruction set: register, flag and opcode selectors, the
//! `Instruction` sum type, and the bidirectional two-byte wire encoding.
//!
//! Every instruction occupies exactly two bytes `(b1, b2)`. The high nibble
//! of `b1` is the primary opcode; the low nibble and `b2` carry operands,
//! with several overlapping layouts. Encoding is total on well-formed
//! instructions; decoding is fallible and reports the offending byte.

use vstd::prelude::*;

verus! {

/// An 8-bit machine word, also used as an address and as an immediate value.
pub type Word = u8;

/// A decode failure, naming the byte (or field of a byte) that is invalid.
#[derive(Clone, Copy, Debug, PartialEq, Eq, Structural)]
pub enum DecodeError {
    /// The high nibble of the first byte is not an assigned primary opcode.
    InvalidOpcode(Word),
    /// A register selector field holds an unassigned selector.
    InvalidRegister(Word),
    /// The ALU sub-opcode nibble is unassigned.
    InvalidAluOpcode(Word),
    /// A flag selector field holds an unassigned selector.
    InvalidFlag(Word),
    /// The stack sub-opcode nibble is unassigned.
    InvalidStackOpcode(Word),
    /// The NOP-family discriminator byte is neither HALT nor NOP.
    InvalidNopOpcode(Word),
    /// The GPIO direction nibble is neither input nor output.
    InvalidGpioOpcode(Word),
}

/// Primary opcode: the high nibble of the first instruction byte.
#[derive(Clone, Copy, Debug, PartialEq, Eq, Structural)]
pub enum Opcode {
    Nop,
    Load,
    LoadP,
    Store,
    StoreP,
    Mov,
    MovC,
    Jmp,
    JmpP,
    JmpR,
    JmpRP,
    Stack,
    Gpio,
    Alu,
}

impl Opcode {
    /// The 4-bit wire selector of this primary opcode.
    pub open spec fn spec_value(self) -> Word {
        match self {
            Opcode::Nop => 0x0,
            Opcode::Load => 0x1,
            Opcode::LoadP => 0x2,
            Opcode::Store => 0x3,
            Opcode::StoreP => 0x4,
            Opcode::Mov => 0x5,
            Opcode::MovC => 0x6,
            Opcode::Jmp => 0x7,
            Opcode::JmpP => 0x8,
            Opcode::JmpR => 0x9,
            Opcode::JmpRP => 0xA,
            Opcode::Stack => 0xB,
            Opcode::Gpio => 0xC,
            Opcode::Alu => 0xD,
        }
    }

    /// The primary opcode denoted by a 4-bit selector, if any.
    pub open spec fn spec_from_word(w: Word) -> Result<Opcode, DecodeError> {
        if w == 0x0 {
            Ok(Opcode::Nop)
        } else if w == 0x1 {
            Ok(Opcode::Load)
        } else if w == 0x2 {
            Ok(Opcode::LoadP)
        } else if w == 0x3 {
            Ok(Opcode::Store)
        } else if w == 0x4 {
            Ok(Opcode::StoreP)
        } else if w == 0x5 {
            Ok(Opcode::Mov)
        } else if w == 0x6 {
            Ok(Opcode::MovC)
        } else if w == 0x7 {
            Ok(Opcode::Jmp)
        } else if w == 0x8 {
            Ok(Opcode::JmpP)
        } else if w == 0x9 {
            Ok(Opcode::JmpR)
        } else if w == 0xA {
            Ok(Opcode::JmpRP)
        } else if w == 0xB {
            Ok(Opcode::Stack)
        } else if w == 0xC {
            Ok(Opcode::Gpio)
        } else if w == 0xD {
            Ok(Opcode::Alu)
        } else {
            Err(DecodeError::InvalidOpcode(w))
        }
    }

    pub fn value(self) -> (v: Word)
        ensures
            v == self.spec_value(),
    {
        match self {
            Opcode::Nop => 0x0,
            Opcode::Load => 0x1,
            Opcode::LoadP => 0x2,
            Opcode::Store => 0x3,
            Opcode::StoreP => 0x4,
            Opcode::Mov => 0x5,
            Opcode::MovC => 0x6,
            Opcode::Jmp => 0x7,
            Opcode::JmpP => 0x8,
            Opcode::JmpR => 0x9,
            Opcode::JmpRP => 0xA,
            Opcode::Stack => 0xB,
            Opcode::Gpio => 0xC,
            Opcode::Alu => 0xD,
        }
    }

    pub fn try_from_word(w: Word) -> (r: Result<Opcode, DecodeError>)
        ensures
            r == Opcode::spec_from_word(w),
    {
        match w {
            0x0 => Ok(Opcode::Nop),
            0x1 => Ok(Opcode::Load),
            0x2 => Ok(Opcode::LoadP),
            0x3 => Ok(Opcode::Store),
            0x4 => Ok(Opcode::StoreP),
            0x5 => Ok(Opcode::Mov),
            0x6 => Ok(Opcode::MovC),
            0x7 => Ok(Opcode::Jmp),
            0x8 => Ok(Opcode::JmpP),
            0x9 => Ok(Opcode::JmpR),
            0xA => Ok(Opcode::JmpRP),
            0xB => Ok(Opcode::Stack),
            0xC => Ok(Opcode::Gpio),
            0xD => Ok(Opcode::Alu),
            _ => Err(DecodeError::InvalidOpcode(w)),
        }
    }
}

/// A register selector. `A`..`D` are general-purpose; `FL` packs the first
/// eight ALU flags, `ST` is the stack top pointer, `BP` the frame base
/// pointer and `IP` the instruction pointer.
#[derive(Clone, Copy, Debug, PartialEq, Eq, Hash, Structural)]
pub enum RegisterRef {
    A,
    B,
    C,
    D,
    /// First 8 flags, packed; read-only for the architecture.
    FL,
    /// Stack top pointer: points at the topmost occupied cell.
    ST,
    /// Stack frame base pointer.
    BP,
    /// Instruction pointer; read-only for the architecture.
    IP,
}

impl RegisterRef {
    /// The 4-bit wire selector of this register.
    pub open spec fn spec_sel(self) -> Word {
        match self {
            RegisterRef::A => 0,
            RegisterRef::B => 1,
            RegisterRef::C => 2,
            RegisterRef::D => 3,
            RegisterRef::FL => 12,
            RegisterRef::ST => 13,
            RegisterRef::BP => 14,
            RegisterRef::IP => 15,
        }
    }

    /// The register denoted by a 4-bit selector, if assigned.
    pub open spec fn spec_from_word(w: Word) -> Result<RegisterRef, DecodeError> {
        if w == 0 {
            Ok(RegisterRef::A)
        } else if w == 1 {
            Ok(RegisterRef::B)
        } else if w == 2 {
            Ok(RegisterRef::C)
        } else if w == 3 {
            Ok(RegisterRef::D)
        } else if w == 12 {
            Ok(RegisterRef::FL)
        } else if w == 13 {
            Ok(RegisterRef::ST)
        } else if w == 14 {
            Ok(RegisterRef::BP)
        } else if w == 15 {
            Ok(RegisterRef::IP)
        } else {
            Err(DecodeError::InvalidRegister(w))
        }
    }

    /// Whether this is one of the four general-purpose registers `A`..`D`.
    pub open spec fn is_general(self) -> bool {
        match self {
            RegisterRef::A | RegisterRef::B | RegisterRef::C | RegisterRef::D => true,
            _ => false,
        }
    }

    pub fn sel(self) -> (v: Word)
        ensures
            v == self.spec_sel(),
    {
        match self {
            RegisterRef::A => 0,
            RegisterRef::B => 1,
            RegisterRef::C => 2,
            RegisterRef::D => 3,
            RegisterRef::FL => 12,
            RegisterRef::ST => 13,
            RegisterRef::BP => 14,
            RegisterRef::IP => 15,
        }
    }

    pub fn try_from_word(w: Word) -> (r: Result<RegisterRef, DecodeError>)
        ensures
            r == RegisterRef::spec_from_word(w),
    {
        match w {
            0 => Ok(RegisterRef::A),
            1 => Ok(RegisterRef::B),
            2 => Ok(RegisterRef::C),
            3 => Ok(RegisterRef::D),
            12 => Ok(RegisterRef::FL),
            13 => Ok(RegisterRef::ST),
            14 => Ok(RegisterRef::BP),
            15 => Ok(RegisterRef::IP),
            _ => Err(DecodeError::InvalidRegister(w)),
        }
    }
}

/// The general-purpose register denoted by a 2-bit selector.
pub open spec fn spec_general_of(w: Word) -> RegisterRef {
    if w == 0 {
        RegisterRef::A
    } else if w == 1 {
        RegisterRef::B
    } else if w == 2 {
        RegisterRef::C
    } else {
        RegisterRef::D
    }
}

pub fn general_of(w: Word) -> (r: RegisterRef)
    ensures
        r == spec_general_of(w),
        r.is_general(),
{
    match w {
        0 => RegisterRef::A,
        1 => RegisterRef::B,
        2 => RegisterRef::C,
        _ => RegisterRef::D,
    }
}

/// An ALU operation: the low nibble of the first byte under the ALU opcode.
#[derive(Clone, Copy, Debug, PartialEq, Eq, Structural)]
pub enum AluOpcode {
    Add,
    AddCarry,
    Incr,
    Decr,
    Xor,
    Neg,
    Sub,
    Or,
    And,
    Nand,
    Nor,
    ShiftL,
    ShiftR,
    Echo,
}

impl AluOpcode {
    /// The 4-bit wire selector of this ALU operation.
    pub open spec fn spec_value(self) -> Word {
        match self {
            AluOpcode::Add => 0b0000,
            AluOpcode::AddCarry => 0b0001,
            AluOpcode::Incr => 0b0010,
            AluOpcode::Decr => 0b0011,
            AluOpcode::Xor => 0b0100,
            AluOpcode::Neg => 0b0101,
            AluOpcode::Sub => 0b0110,
            AluOpcode::Or => 0b1000,
            AluOpcode::And => 0b1001,
            AluOpcode::Nand => 0b1010,
            AluOpcode::Nor => 0b1011,
            AluOpcode::ShiftL => 0b1100,
            AluOpcode::ShiftR => 0b1101,
            AluOpcode::Echo => 0b1111,
        }
    }

    /// The ALU operation denoted by a 4-bit selector, if assigned.
    pub open spec fn spec_from_word(w: Word) -> Result<AluOpcode, DecodeError> {
        if w == 0b0000 {
            Ok(AluOpcode::Add)
        } else if w == 0b0001 {
            Ok(AluOpcode::AddCarry)
        } else if w == 0b0010 {
            Ok(AluOpcode::Incr)
        } else if w == 0b0011 {
            Ok(AluOpcode::Decr)
        } else if w == 0b0100 {
            Ok(AluOpcode::Xor)
        } else if w == 0b0101 {
            Ok(AluOpcode::Neg)
        } else if w == 0b0110 {
            Ok(AluOpcode::Sub)
        } else if w == 0b1000 {
            Ok(AluOpcode::Or)
        } else if w == 0b1001 {
            Ok(AluOpcode::And)
        } else if w == 0b1010 {
            Ok(AluOpcode::Nand)
        } else if w == 0b1011 {
            Ok(AluOpcode::Nor)
        } else if w == 0b1100 {
            Ok(AluOpcode::ShiftL)
        } else if w == 0b1101 {
            Ok(AluOpcode::ShiftR)
        } else if w == 0b1111 {
            Ok(AluOpcode::Echo)
        } else {
            Err(DecodeError::InvalidAluOpcode(w))
        }
    }

    pub fn value(self) -> (v: Word)
        ensures
            v == self.spec_value(),
    {
        match self {
            AluOpcode::Add => 0b0000,
            AluOpcode::AddCarry => 0b0001,
            AluOpcode::Incr => 0b0010,
            AluOpcode::Decr => 0b0011,
            AluOpcode::Xor => 0b0100,
            AluOpcode::Neg => 0b0101,
            AluOpcode::Sub => 0b0110,
            AluOpcode::Or => 0b1000,
            AluOpcode::And => 0b1001,
            AluOpcode::Nand => 0b1010,
            AluOpcode::Nor => 0b1011,
            AluOpcode::ShiftL => 0b1100,
            AluOpcode::ShiftR => 0b1101,
            AluOpcode::Echo => 0b1111,
        }
    }

    pub fn try_from_word(w: Word) -> (r: Result<AluOpcode, DecodeError>)
        ensures
            r == AluOpcode::spec_from_word(w),
    {
        match w {
            0b0000 => Ok(AluOpcode::Add),
            0b0001 => Ok(AluOpcode::AddCarry),
            0b0010 => Ok(AluOpcode::Incr),
            0b0011 => Ok(AluOpcode::Decr),
            0b0100 => Ok(AluOpcode::Xor),
            0b0101 => Ok(AluOpcode::Neg),
            0b0110 => Ok(AluOpcode::Sub),
            0b1000 => Ok(AluOpcode::Or),
            0b1001 => Ok(AluOpcode::And),
            0b1010 => Ok(AluOpcode::Nand),
            0b1011 => Ok(AluOpcode::Nor),
            0b1100 => Ok(AluOpcode::ShiftL),
            0b1101 => Ok(AluOpcode::ShiftR),
            0b1111 => Ok(AluOpcode::Echo),
            _ => Err(DecodeError::InvalidAluOpcode(w)),
        }
    }
}

/// A jump predicate: one of the thirteen real ALU flags, or the two
/// constant pseudo-flags `False` and `True`.
#[derive(Clone, Copy, Debug, PartialEq, Eq, Hash, Structural)]
pub enum AluFlagRef {
    EqZero,
    OverflowUnsigned,
    OverflowSigned,
    Equal,
    GreaterThan,
    GreaterThanSigned,
    GreaterOrEqual,
    GreaterOrEqualSigned,
    NotEqual,
    LessThan,
    LessThanSigned,
    LessOrEqual,
    LessOrEqualSigned,
    /// Constant 0: a jump on it never branches.
    False,
    /// Constant 1: a jump on it always branches.
    True,
}

impl AluFlagRef {
    /// The 4-bit wire selector of this flag.
    pub open spec fn spec_sel(self) -> Word {
        match self {
            AluFlagRef::EqZero => 0,
            AluFlagRef::OverflowUnsigned => 1,
            AluFlagRef::OverflowSigned => 2,
            AluFlagRef::Equal => 3,
            AluFlagRef::GreaterThan => 4,
            AluFlagRef::GreaterThanSigned => 5,
            AluFlagRef::GreaterOrEqual => 6,
            AluFlagRef::GreaterOrEqualSigned => 7,
            AluFlagRef::NotEqual => 8,
            AluFlagRef::LessThan => 9,
            AluFlagRef::LessThanSigned => 10,
            AluFlagRef::LessOrEqual => 11,
            AluFlagRef::LessOrEqualSigned => 12,
            AluFlagRef::False => 14,
            AluFlagRef::True => 15,
        }
    }

    /// The flag denoted by a 4-bit selector, if assigned.
    pub open spec fn spec_from_word(w: Word) -> Result<AluFlagRef, DecodeError> {
        if w == 0 {
            Ok(AluFlagRef::EqZero)
        } else if w == 1 {
            Ok(AluFlagRef::OverflowUnsigned)
        } else if w == 2 {
            Ok(AluFlagRef::OverflowSigned)
        } else if w == 3 {
            Ok(AluFlagRef::Equal)
        } else if w == 4 {
            Ok(AluFlagRef::GreaterThan)
        } else if w == 5 {
            Ok(AluFlagRef::GreaterThanSigned)
        } else if w == 6 {
            Ok(AluFlagRef::GreaterOrEqual)
        } else if w == 7 {
            Ok(AluFlagRef::GreaterOrEqualSigned)
        } else if w == 8 {
            Ok(AluFlagRef::NotEqual)
        } else if w == 9 {
            Ok(AluFlagRef::LessThan)
        } else if w == 10 {
            Ok(AluFlagRef::LessThanSigned)
        } else if w == 11 {
            Ok(AluFlagRef::LessOrEqual)
        } else if w == 12 {
            Ok(AluFlagRef::LessOrEqualSigned)
        } else if w == 14 {
            Ok(AluFlagRef::False)
        } else if w == 15 {
            Ok(AluFlagRef::True)
        } else {
            Err(DecodeError::InvalidFlag(w))
        }
    }

    pub fn sel(self) -> (v: Word)
        ensures
            v == self.spec_sel(),
    {
        match self {
            AluFlagRef::EqZero => 0,
            AluFlagRef::OverflowUnsigned => 1,
            AluFlagRef::OverflowSigned => 2,
            AluFlagRef::Equal => 3,
            AluFlagRef::GreaterThan => 4,
            AluFlagRef::GreaterThanSigned => 5,
            AluFlagRef::GreaterOrEqual => 6,
            AluFlagRef::GreaterOrEqualSigned => 7,
            AluFlagRef::NotEqual => 8,
            AluFlagRef::LessThan => 9,
            AluFlagRef::LessThanSigned => 10,
            AluFlagRef::LessOrEqual => 11,
            AluFlagRef::LessOrEqualSigned => 12,
            AluFlagRef::False => 14,
            AluFlagRef::True => 15,
        }
    }

    pub fn try_from_word(w: Word) -> (r: Result<AluFlagRef, DecodeError>)
        ensures
            r == AluFlagRef::spec_from_word(w),
    {
        match w {
            0 => Ok(AluFlagRef::EqZero),
            1 => Ok(AluFlagRef::OverflowUnsigned),
            2 => Ok(AluFlagRef::OverflowSigned),
            3 => Ok(AluFlagRef::Equal),
            4 => Ok(AluFlagRef::GreaterThan),
            5 => Ok(AluFlagRef::GreaterThanSigned),
            6 => Ok(AluFlagRef::GreaterOrEqual),
            7 => Ok(AluFlagRef::GreaterOrEqualSigned),
            8 => Ok(AluFlagRef::NotEqual),
            9 => Ok(AluFlagRef::LessThan),
            10 => Ok(AluFlagRef::LessThanSigned),
            11 => Ok(AluFlagRef::LessOrEqual),
            12 => Ok(AluFlagRef::LessOrEqualSigned),
            14 => Ok(AluFlagRef::False),
            15 => Ok(AluFlagRef::True),
            _ => Err(DecodeError::InvalidFlag(w)),
        }
    }
}

/// A stack sub-opcode: the low nibble of the first byte under the stack
/// primary opcode.
#[derive(Clone, Copy, Debug, PartialEq, Eq, Structural)]
pub enum StackOpcode {
    Ret,
    Push,
    Pop,
    Call,
    CallC,
    CallR,
    LoadA,
    LoadB,
    LoadC,
    LoadD,
}

impl StackOpcode {
    /// The 4-bit wire selector of this stack sub-opcode.
    pub open spec fn spec_value(self) -> Word {
        match self {
            StackOpcode::Ret => 0b0000,
            StackOpcode::Push => 0b0001,
            StackOpcode::Pop => 0b0010,
            StackOpcode::Call => 0b0100,
            StackOpcode::CallC => 0b0101,
            StackOpcode::CallR => 0b0110,
            StackOpcode::LoadA => 0b1000,
            StackOpcode::LoadB => 0b1001,
            StackOpcode::LoadC => 0b1010,
            StackOpcode::LoadD => 0b1011,
        }
    }

    /// The stack sub-opcode denoted by a 4-bit selector, if assigned.
    pub open spec fn spec_from_word(w: Word) -> Result<StackOpcode, DecodeError> {
        if w == 0b0000 {
            Ok(StackOpcode::Ret)
        } else if w == 0b0001 {
            Ok(StackOpcode::Push)
        } else if w == 0b0010 {
            Ok(StackOpcode::Pop)
        } else if w == 0b0100 {
            Ok(StackOpcode::Call)
        } else if w == 0b0101 {
            Ok(StackOpcode::CallC)
        } else if w == 0b0110 {
            Ok(StackOpcode::CallR)
        } else if w == 0b1000 {
            Ok(StackOpcode::LoadA)
        } else if w == 0b1001 {
            Ok(StackOpcode::LoadB)
        } else if w == 0b1010 {
            Ok(StackOpcode::LoadC)
        } else if w == 0b1011 {
            Ok(StackOpcode::LoadD)
        } else {
            Err(DecodeError::InvalidStackOpcode(w))
        }
    }

    pub fn value(self) -> (v: Word)
        ensures
            v == self.spec_value(),
    {
        match self {
            StackOpcode::Ret => 0b0000,
            StackOpcode::Push => 0b0001,
            StackOpcode::Pop => 0b0010,
            StackOpcode::Call => 0b0100,
            StackOpcode::CallC => 0b0101,
            StackOpcode::CallR => 0b0110,
            StackOpcode::LoadA => 0b1000,
            StackOpcode::LoadB => 0b1001,
            StackOpcode::LoadC => 0b1010,
            StackOpcode::LoadD => 0b1011,
        }
    }

    pub fn try_from_word(w: Word) -> (r: Result<StackOpcode, DecodeError>)
        ensures
            r == StackOpcode::spec_from_word(w),
    {
        match w {
            0b0000 => Ok(StackOpcode::Ret),
            0b0001 => Ok(StackOpcode::Push),
            0b0010 => Ok(StackOpcode::Pop),
            0b0100 => Ok(StackOpcode::Call),
            0b0101 => Ok(StackOpcode::CallC),
            0b0110 => Ok(StackOpcode::CallR),
            0b1000 => Ok(StackOpcode::LoadA),
            0b1001 => Ok(StackOpcode::LoadB),
            0b1010 => Ok(StackOpcode::LoadC),
            0b1011 => Ok(StackOpcode::LoadD),
            _ => Err(DecodeError::InvalidStackOpcode(w)),
        }
    }
}

/// The NOP-family discriminator carried in the second byte under the
/// NOP-family primary opcode.
#[derive(Clone, Copy, Debug, PartialEq, Eq, Structural)]
pub enum NopOpcode {
    /// Freezes the machine: execution never advances past it.
    Halt,
    /// Does nothing and advances.
    Nop,
}

impl NopOpcode {
    /// The full-byte wire discriminator of this NOP-family instruction.
    pub open spec fn spec_value(self) -> Word {
        match self {
            NopOpcode::Halt => 0x00,
            NopOpcode::Nop => 0xff,
        }
    }

    /// The NOP-family instruction denoted by a discriminator byte, if any.
    pub open spec fn spec_from_word(w: Word) -> Result<NopOpcode, DecodeError> {
        if w == 0x00 {
            Ok(NopOpcode::Halt)
        } else if w == 0xff {
            Ok(NopOpcode::Nop)
        } else {
            Err(DecodeError::InvalidNopOpcode(w))
        }
    }

    pub fn value(self) -> (v: Word)
        ensures
            v == self.spec_value(),
    {
        match self {
            NopOpcode::Halt => 0x00,
            NopOpcode::Nop => 0xff,
        }
    }

    pub fn try_from_word(w: Word) -> (r: Result<NopOpcode, DecodeError>)
        ensures
            r == NopOpcode::spec_from_word(w),
    {
        match w {
            0x00 => Ok(NopOpcode::Halt),
            0xff => Ok(NopOpcode::Nop),
            _ => Err(DecodeError::InvalidNopOpcode(w)),
        }
    }
}

/// An instruction under the stack primary opcode.
#[derive(Clone, Copy, Debug, PartialEq, Eq, Structural)]
pub enum StackInstruction {
    /// Grow the stack downward and write `read(src)` to the new top cell.
    Push { src: RegisterRef },
    /// Read the top cell into `dest` and shrink the stack.
    Pop { dest: RegisterRef },
    /// Stack-frame load: `dest` gets `mem[(BP + sext(bp_diff)) mod 256]`.
    Load { dest: RegisterRef, bp_diff: Word },
    /// Call to the address held in a register.
    Call { addr_reg: RegisterRef },
    /// Call to an immediate address.
    CallC { addr: Word },
    /// Call relative to the current instruction pointer.
    CallR { diff: Word },
    /// Return: restore the caller's frame and leave `read(src)` on top.
    Ret { src: RegisterRef },
}

impl StackInstruction {
    /// Well-formed stack instructions encode to two bytes and decode back
    /// to themselves: a stack-frame load can only target `A`..`D`.
    pub open spec fn wf(self) -> bool {
        match self {
            StackInstruction::Load { dest, bp_diff } => dest.is_general(),
            _ => true,
        }
    }
}

/// One LEG instruction, the decoded form of two wire bytes.
#[derive(Clone, Copy, Debug, PartialEq, Eq, Structural)]
pub enum Instruction {
    /// `dest` gets `mem[addr]`.
    Load { dest: RegisterRef, addr: Word },
    /// `dest` gets `mem[read(addr_src)]`.
    LoadP { dest: RegisterRef, addr_src: RegisterRef },
    /// `mem[addr]` gets `read(src)`.
    Store { src: RegisterRef, addr: Word },
    /// `mem[read(addr_src)]` gets `read(src)`.
    StoreP { src: RegisterRef, addr_src: RegisterRef },
    /// `dest` gets `read(src)`.
    Mov { dest: RegisterRef, src: RegisterRef },
    /// `dest` gets the immediate `val`.
    MovC { dest: RegisterRef, val: Word },
    /// If `flag` is set, jump to the absolute address `addr`.
    Jmp { flag: AluFlagRef, addr: Word },
    /// If `flag` is set, jump to `mem[read(addr_src)]`.
    JmpP { flag: AluFlagRef, addr_src: RegisterRef },
    /// If `flag` is set, jump to `(ip + sext(diff)) mod 256`.
    JmpR { flag: AluFlagRef, diff: Word },
    /// If `flag` is set, jump to `(ip + sext(mem[read(diff_src)])) mod 256`.
    JmpRP { flag: AluFlagRef, diff_src: RegisterRef },
    /// A stack operation.
    Stack(StackInstruction),
    /// `dest` gets the host input port.
    Gpi { dest: RegisterRef },
    /// The host output port gets `read(src)`.
    Gpo { src: RegisterRef },
    /// `out` gets `op(arg1, arg2)`; all thirteen flags are recomputed.
    Alu { op: AluOpcode, arg1: RegisterRef, arg2: RegisterRef, out: RegisterRef },
    /// HALT or NOP.
    Nop(NopOpcode),
}

impl Instruction {
    /// Well-formed instructions encode to two bytes and decode back to
    /// themselves: ALU operands are restricted to the 2-bit selectors
    /// `A`..`D`, and stack instructions must themselves be well-formed.
    pub open spec fn wf(self) -> bool {
        match self {
            Instruction::Alu { op, arg1, arg2, out } => arg1.is_general() && arg2.is_general()
                && out.is_general(),
            Instruction::Stack(s) => s.wf(),
            _ => true,
        }
    }
}

/// The two-byte wire form of a well-formed stack instruction.
pub open spec fn spec_encode_stack(s: StackInstruction) -> (Word, Word) {
    let hi = Opcode::Stack.spec_value() << 4;
    match s {
        StackInstruction::Push { src } => (hi | StackOpcode::Push.spec_value(), src.spec_sel()),
        StackInstruction::Pop { dest } => (hi | StackOpcode::Pop.spec_value(), dest.spec_sel()),
        StackInstruction::Call { addr_reg } => (
            hi | StackOpcode::Call.spec_value(),
            addr_reg.spec_sel(),
        ),
        StackInstruction::CallC { addr } => (hi | StackOpcode::CallC.spec_value(), addr),
        StackInstruction::CallR { diff } => (hi | StackOpcode::CallR.spec_value(), diff),
        StackInstruction::Ret { src } => (hi | StackOpcode::Ret.spec_value(), src.spec_sel()),
        StackInstruction::Load { dest, bp_diff } => {
            let sub = match dest {
                RegisterRef::A => StackOpcode::LoadA,
                RegisterRef::B => StackOpcode::LoadB,
                RegisterRef::C => StackOpcode::LoadC,
                _ => StackOpcode::LoadD,
            };
            (hi | sub.spec_value(), bp_diff)
        },
    }
}

/// The two-byte wire form of a well-formed instruction.
pub open spec fn spec_encode(i: Instruction) -> (Word, Word) {
    match i {
        Instruction::Load { dest, addr } => (
            (Opcode::Load.spec_value() << 4) | dest.spec_sel(),
            addr,
        ),
        Instruction::LoadP { dest, addr_src } => (
            (Opcode::LoadP.spec_value() << 4) | dest.spec_sel(),
            addr_src.spec_sel(),
        ),
        Instruction::Store { src, addr } => (
            (Opcode::Store.spec_value() << 4) | src.spec_sel(),
            addr,
        ),
        Instruction::StoreP { src, addr_src } => (
            (Opcode::StoreP.spec_value() << 4) | src.spec_sel(),
            addr_src.spec_sel(),
        ),
        Instruction::Mov { dest, src } => (
            (Opcode::Mov.spec_value() << 4) | dest.spec_sel(),
            src.spec_sel(),
        ),
        Instruction::MovC { dest, val } => ((Opcode::MovC.spec_value() << 4) | dest.spec_sel(), val),
        Instruction::Jmp { flag, addr } => ((Opcode::Jmp.spec_value() << 4) | flag.spec_sel(), addr),
        Instruction::JmpP { flag, addr_src } => (
            (Opcode::JmpP.spec_value() << 4) | flag.spec_sel(),
            addr_src.spec_sel(),
        ),
        Instruction::JmpR { flag, diff } => (
            (Opcode::JmpR.spec_value() << 4) | flag.spec_sel(),
            diff,
        ),
        Instruction::JmpRP { flag, diff_src } => (
            (Opcode::JmpRP.spec_value() << 4) | flag.spec_sel(),
            diff_src.spec_sel(),
        ),
        Instruction::Stack(s) => spec_encode_stack(s),
        Instruction::Gpi { dest } => ((Opcode::Gpio.spec_value() << 4) | 0x0, dest.spec_sel()),
        Instruction::Gpo { src } => ((Opcode::Gpio.spec_value() << 4) | 0x1, src.spec_sel()),
        Instruction::Alu { op, arg1, arg2, out } => (
            (Opcode::Alu.spec_value() << 4) | op.spec_value(),
            (arg1.spec_sel() << 6) | (arg2.spec_sel() << 4) | out.spec_sel(),
        ),
        Instruction::Nop(n) => ((Opcode::Nop.spec_value() << 4) | 0x0, n.spec_value()),
    }
}

/// The instruction denoted by two wire bytes, or the first decode error.
pub open spec fn spec_decode(b1: Word, b2: Word) -> Result<Instruction, DecodeError> {
    match Opcode::spec_from_word(b1 >> 4) {
        Err(e) => Err(e),
        Ok(op) => match op {
            Opcode::Load => match RegisterRef::spec_from_word(b1 & 0xf) {
                Err(e) => Err(e),
                Ok(dest) => Ok(Instruction::Load { dest, addr: b2 }),
            },
            Opcode::LoadP => match RegisterRef::spec_from_word(b1 & 0xf) {
                Err(e) => Err(e),
                Ok(dest) => match RegisterRef::spec_from_word(b2 & 0xf) {
                    Err(e) => Err(e),
                    Ok(addr_src) => Ok(Instruction::LoadP { dest, addr_src }),
                },
            },
            Opcode::Store => match RegisterRef::spec_from_word(b1 & 0xf) {
                Err(e) => Err(e),
                Ok(src) => Ok(Instruction::Store { src, addr: b2 }),
            },
            Opcode::StoreP => match RegisterRef::spec_from_word(b1 & 0xf) {
                Err(e) => Err(e),
                Ok(src) => match RegisterRef::spec_from_word(b2 & 0xf) {
                    Err(e) => Err(e),
                    Ok(addr_src) => Ok(Instruction::StoreP { src, addr_src }),
                },
            },
            Opcode::Mov => match RegisterRef::spec_from_word(b1 & 0xf) {
                Err(e) => Err(e),
                Ok(dest) => match RegisterRef::spec_from_word(b2) {
                    Err(e) => Err(e),
                    Ok(src) => Ok(Instruction::Mov { dest, src }),
                },
            },
            Opcode::MovC => match RegisterRef::spec_from_word(b1 & 0xf) {
                Err(e) => Err(e),
                Ok(dest) => Ok(Instruction::MovC { dest, val: b2 }),
            },
            Opcode::Jmp => match AluFlagRef::spec_from_word(b1 & 0xf) {
                Err(e) => Err(e),
                Ok(flag) => Ok(Instruction::Jmp { flag, addr: b2 }),
            },
            Opcode::JmpP => match AluFlagRef::spec_from_word(b1 & 0xf) {
                Err(e) => Err(e),
                Ok(flag) => match RegisterRef::spec_from_word(b2 & 0xf) {
                    Err(e) => Err(e),
                    Ok(addr_src) => Ok(Instruction::JmpP { flag, addr_src }),
                },
            },
            Opcode::JmpR => match AluFlagRef::spec_from_word(b1 & 0xf) {
                Err(e) => Err(e),
                Ok(flag) => Ok(Instruction::JmpR { flag, diff: b2 }),
            },
            Opcode::JmpRP => match AluFlagRef::spec_from_word(b1 & 0xf) {
                Err(e) => Err(e),
                Ok(flag) => match RegisterRef::spec_from_word(b2 & 0xf) {
                    Err(e) => Err(e),
                    Ok(diff_src) => Ok(Instruction::JmpRP { flag, diff_src }),
                },
            },
            Opcode::Stack => match StackOpcode::spec_from_word(b1 & 0xf) {
                Err(e) => Err(e),
                Ok(sub) => match sub {
                    StackOpcode::Ret => match RegisterRef::spec_from_word(b2) {
                        Err(e) => Err(e),
                        Ok(src) => Ok(Instruction::Stack(StackInstruction::Ret { src })),
                    },
                    StackOpcode::Push => match RegisterRef::spec_from_word(b2) {
                        Err(e) => Err(e),
                        Ok(src) => Ok(Instruction::Stack(StackInstruction::Push { src })),
                    },
                    StackOpcode::Pop => match RegisterRef::spec_from_word(b2) {
                        Err(e) => Err(e),
                        Ok(dest) => Ok(Instruction::Stack(StackInstruction::Pop { dest })),
                    },
                    StackOpcode::Call => match RegisterRef::spec_from_word(b2) {
                        Err(e) => Err(e),
                        Ok(addr_reg) => Ok(Instruction::Stack(StackInstruction::Call { addr_reg })),
                    },
                    StackOpcode::CallC => Ok(Instruction::Stack(StackInstruction::CallC { addr: b2 })),
                    StackOpcode::CallR => Ok(Instruction::Stack(StackInstruction::CallR { diff: b2 })),
                    StackOpcode::LoadA => Ok(
                        Instruction::Stack(StackInstruction::Load { dest: RegisterRef::A, bp_diff: b2 }),
                    ),
                    StackOpcode::LoadB => Ok(
                        Instruction::Stack(StackInstruction::Load { dest: RegisterRef::B, bp_diff: b2 }),
                    ),
                    StackOpcode::LoadC => Ok(
                        Instruction::Stack(StackInstruction::Load { dest: RegisterRef::C, bp_diff: b2 }),
                    ),
                    StackOpcode::LoadD => Ok(
                        Instruction::Stack(StackInstruction::Load { dest: RegisterRef::D, bp_diff: b2 }),
                    ),
                },
            },
            Opcode::Gpio => {
                if b1 & 0xf == 0 {
                    match RegisterRef::spec_from_word(b2 & 0xf) {
                        Err(e) => Err(e),
                        Ok(dest) => Ok(Instruction::Gpi { dest }),
                    }
                } else if b1 & 0xf == 1 {
                    match RegisterRef::spec_from_word(b2 & 0xf) {
                        Err(e) => Err(e),
                        Ok(src) => Ok(Instruction::Gpo { src }),
                    }
                } else {
                    Err(DecodeError::InvalidGpioOpcode(b1 & 0xf))
                }
            },
            Opcode::Alu => match AluOpcode::spec_from_word(b1 & 0xf) {
                Err(e) => Err(e),
                Ok(op) => Ok(
                    Instruction::Alu {
                        op,
                        arg1: spec_general_of(b2 >> 6),
                        arg2: spec_general_of((b2 >> 4) & 0x3),
                        out: spec_general_of(b2 & 0x3),
                    },
                ),
            },
            Opcode::Nop => match NopOpcode::spec_from_word(b2) {
                Err(e) => Err(e),
                Ok(n) => Ok(Instruction::Nop(n)),
            },
        },
    }
}

impl Instruction {
    /// Encode this instruction into its unique two-byte wire form.
    pub fn encode(&self) -> (r: (Word, Word))
        requires
            self.wf(),
        ensures
            r == spec_encode(*self),
    {
        match *self {
            Instruction::Load { dest, addr } => (pack(Opcode::Load, dest.sel()), addr),
            Instruction::LoadP { dest, addr_src } => (
                pack(Opcode::LoadP, dest.sel()),
                addr_src.sel(),
            ),
            Instruction::Store { src, addr } => (pack(Opcode::Store, src.sel()), addr),
            Instruction::StoreP { src, addr_src } => (
                pack(Opcode::StoreP, src.sel()),
                addr_src.sel(),
            ),
            Instruction::Mov { dest, src } => (pack(Opcode::Mov, dest.sel()), src.sel()),
            Instruction::MovC { dest, val } => (pack(Opcode::MovC, dest.sel()), val),
            Instruction::Jmp { flag, addr } => (pack(Opcode::Jmp, flag.sel()), addr),
            Instruction::JmpP { flag, addr_src } => (
                pack(Opcode::JmpP, flag.sel()),
                addr_src.sel(),
            ),
            Instruction::JmpR { flag, diff } => (pack(Opcode::JmpR, flag.sel()), diff),
            Instruction::JmpRP { flag, diff_src } => (
                pack(Opcode::JmpRP, flag.sel()),
                diff_src.sel(),
            ),
            Instruction::Stack(s) => {
                match s {
                    StackInstruction::Push { src } => (
                        pack(Opcode::Stack, StackOpcode::Push.value()),
                        src.sel(),
                    ),
                    StackInstruction::Pop { dest } => (
                        pack(Opcode::Stack, StackOpcode::Pop.value()),
                        dest.sel(),
                    ),
                    StackInstruction::Call { addr_reg } => (
                        pack(Opcode::Stack, StackOpcode::Call.value()),
                        addr_reg.sel(),
                    ),
                    StackInstruction::CallC { addr } => (
                        pack(Opcode::Stack, StackOpcode::CallC.value()),
                        addr,
                    ),
                    StackInstruction::CallR { diff } => (
                        pack(Opcode::Stack, StackOpcode::CallR.value()),
                        diff,
                    ),
                    StackInstruction::Ret { src } => (
                        pack(Opcode::Stack, StackOpcode::Ret.value()),
                        src.sel(),
                    ),
                    StackInstruction::Load { dest, bp_diff } => {
                        let sub = match dest {
                            RegisterRef::A => StackOpcode::LoadA,
                            RegisterRef::B => StackOpcode::LoadB,
                            RegisterRef::C => StackOpcode::LoadC,
                            _ => StackOpcode::LoadD,
                        };
                        (pack(Opcode::Stack, sub.value()), bp_diff)
                    },
                }
            },
            Instruction::Gpi { dest } => (pack(Opcode::Gpio, 0x0), dest.sel()),
            Instruction::Gpo { src } => (pack(Opcode::Gpio, 0x1), src.sel()),
            Instruction::Alu { op, arg1, arg2, out } => (
                pack(Opcode::Alu, op.value()),
                (arg1.sel() << 6) | (arg2.sel() << 4) | out.sel(),
            ),
            Instruction::Nop(n) => (pack(Opcode::Nop, 0x0), n.value()),
        }
    }

    /// Decode two wire bytes into an instruction, or report which byte is
    /// invalid.
    #[verifier::rlimit(60)]
    pub fn decode(b1: Word, b2: Word) -> (r: Result<Instruction, DecodeError>)
        ensures
            r == spec_decode(b1, b2),
    {
        let op = match Opcode::try_from_word(b1 >> 4) {
            Ok(op) => op,
            Err(e) => {
                return Err(e);
            },
        };
        match op {
            Opcode::Load => {
                let dest = match RegisterRef::try_from_word(b1 & 0xf) {
                    Ok(r) => r,
                    Err(e) => {
                        return Err(e);
                    },
                };
                Ok(Instruction::Load { dest, addr: b2 })
            },
            Opcode::LoadP => {
                let dest = match RegisterRef::try_from_word(b1 & 0xf) {
                    Ok(r) => r,
                    Err(e) => {
                        return Err(e);
                    },
                };
                let addr_src = match RegisterRef::try_from_word(b2 & 0xf) {
                    Ok(r) => r,
                    Err(e) => {
                        return Err(e);
                    },
                };
                Ok(Instruction::LoadP { dest, addr_src })
            },
            Opcode::Store => {
                let src = match RegisterRef::try_from_word(b1 & 0xf) {
                    Ok(r) => r,
                    Err(e) => {
                        return Err(e);
                    },
                };
                Ok(Instruction::Store { src, addr: b2 })
            },
            Opcode::StoreP => {
                let src = match RegisterRef::try_from_word(b1 & 0xf) {
                    Ok(r) => r,
                    Err(e) => {
                        return Err(e);
                    },
                };
                let addr_src = match RegisterRef::try_from_word(b2 & 0xf) {
                    Ok(r) => r,
                    Err(e) => {
                        return Err(e);
                    },
                };
                Ok(Instruction::StoreP { src, addr_src })
            },
            Opcode::Mov => {
                let dest = match RegisterRef::try_from_word(b1 & 0xf) {
                    Ok(r) => r,
                    Err(e) => {
                        return Err(e);
                    },
                };
                let src = match RegisterRef::try_from_word(b2) {
                    Ok(r) => r,
                    Err(e) => {
                        return Err(e);
                    },
                };
                Ok(Instruction::Mov { dest, src })
            },
            Opcode::MovC => {
                let dest = match RegisterRef::try_from_word(b1 & 0xf) {
                    Ok(r) => r,
                    Err(e) => {
                        return Err(e);
                    },
                };
                Ok(Instruction::MovC { dest, val: b2 })
            },
            Opcode::Jmp => {
                let flag = match AluFlagRef::try_from_word(b1 & 0xf) {
                    Ok(f) => f,
                    Err(e) => {
                        return Err(e);
                    },
                };
                Ok(Instruction::Jmp { flag, addr: b2 })
            },
            Opcode::JmpP => {
                let flag = match AluFlagRef::try_from_word(b1 & 0xf) {
                    Ok(f) => f,
                    Err(e) => {
                        return Err(e);
                    },
                };
                let addr_src = match RegisterRef::try_from_word(b2 & 0xf) {
                    Ok(r) => r,
                    Err(e) => {
                        return Err(e);
                    },
                };
                Ok(Instruction::JmpP { flag, addr_src })
            },
            Opcode::JmpR => {
                let flag = match AluFlagRef::try_from_word(b1 & 0xf) {
                    Ok(f) => f,
                    Err(e) => {
                        return Err(e);
                    },
                };
                Ok(Instruction::JmpR { flag, diff: b2 })
            },
            Opcode::JmpRP => {
                let flag = match AluFlagRef::try_from_word(b1 & 0xf) {
                    Ok(f) => f,
                    Err(e) => {
                        return Err(e);
                    },
                };
                let diff_src = match RegisterRef::try_from_word(b2 & 0xf) {
                    Ok(r) => r,
                    Err(e) => {
                        return Err(e);
                    },
                };
                Ok(Instruction::JmpRP { flag, diff_src })
            },
            Opcode::Stack => {
                let sub = match StackOpcode::try_from_word(b1 & 0xf) {
                    Ok(s) => s,
                    Err(e) => {
                        return Err(e);
                    },
                };
                match sub {
                    StackOpcode::Ret => {
                        let src = match RegisterRef::try_from_word(b2) {
                            Ok(r) => r,
                            Err(e) => {
                                return Err(e);
                            },
                        };
                        Ok(Instruction::Stack(StackInstruction::Ret { src }))
                    },
                    StackOpcode::Push => {
                        let src = match RegisterRef::try_from_word(b2) {
                            Ok(r) => r,
                            Err(e) => {
                                return Err(e);
                            },
                        };
                        Ok(Instruction::Stack(StackInstruction::Push { src }))
                    },
                    StackOpcode::Pop => {
                        let dest = match RegisterRef::try_from_word(b2) {
                            Ok(r) => r,
                            Err(e) => {
                                return Err(e);
                            },
                        };
                        Ok(Instruction::Stack(StackInstruction::Pop { dest }))
                    },
                    StackOpcode::Call => {
                        let addr_reg = match RegisterRef::try_from_word(b2) {
                            Ok(r) => r,
                            Err(e) => {
                                return Err(e);
                            },
                        };
                        Ok(Instruction::Stack(StackInstruction::Call { addr_reg }))
                    },
                    StackOpcode::CallC => Ok(Instruction::Stack(StackInstruction::CallC { addr: b2 })),
                    StackOpcode::CallR => Ok(Instruction::Stack(StackInstruction::CallR { diff: b2 })),
                    StackOpcode::LoadA => Ok(
                        Instruction::Stack(StackInstruction::Load { dest: RegisterRef::A, bp_diff: b2 }),
                    ),
                    StackOpcode::LoadB => Ok(
                        Instruction::Stack(StackInstruction::Load { dest: RegisterRef::B, bp_diff: b2 }),
                    ),
                    StackOpcode::LoadC => Ok(
                        Instruction::Stack(StackInstruction::Load { dest: RegisterRef::C, bp_diff: b2 }),
                    ),
                    StackOpcode::LoadD => Ok(
                        Instruction::Stack(StackInstruction::Load { dest: RegisterRef::D, bp_diff: b2 }),
                    ),
                }
            },
            Opcode::Gpio => {
                if b1 & 0xf == 0 {
                    let dest = match RegisterRef::try_from_word(b2 & 0xf) {
                        Ok(r) => r,
                        Err(e) => {
                            return Err(e);
                        },
                    };
                    Ok(Instruction::Gpi { dest })
                } else if b1 & 0xf == 1 {
                    let src = match RegisterRef::try_from_word(b2 & 0xf) {
                        Ok(r) => r,
                        Err(e) => {
                            return Err(e);
                        },
                    };
                    Ok(Instruction::Gpo { src })
                } else {
                    Err(DecodeError::InvalidGpioOpcode(b1 & 0xf))
                }
            },
            Opcode::Alu => {
                let op = match AluOpcode::try_from_word(b1 & 0xf) {
                    Ok(o) => o,
                    Err(e) => {
                        return Err(e);
                    },
                };
                Ok(
                    Instruction::Alu {
                        op,
                        arg1: general_of(b2 >> 6),
                        arg2: general_of((b2 >> 4) & 0x3),
                        out: general_of(b2 & 0x3),
                    },
                )
            },
            Opcode::Nop => {
                let n = match NopOpcode::try_from_word(b2) {
                    Ok(n) => n,
                    Err(e) => {
                        return Err(e);
                    },
                };
                Ok(Instruction::Nop(n))
            },
        }
    }
}

/// Pack a primary opcode and a 4-bit operand nibble into the first byte.
fn pack(op: Opcode, low: Word) -> (b: Word)
    requires
        low <= 0xf,
    ensures
        b == (op.spec_value() << 4) | low,
{
    (op.value() << 4) | low
}

/// Splitting a packed byte recovers both nibbles.
proof fn lemma_pack_nibbles(hi: Word, lo: Word)
    requires
        hi <= 0xf,
        lo <= 0xf,
    ensures
        ((hi << 4) | lo) >> 4 == hi,
        ((hi << 4) | lo) & 0xf == lo,
{
    assert((((hi << 4) | lo) >> 4 == hi) && (((hi << 4) | lo) & 0xf == lo)) by (bit_vector)
        requires
            hi <= 0xf,
            lo <= 0xf,
    ;
}

/// Splitting the packed ALU operand byte recovers all three 2-bit fields.
proof fn lemma_pack_alu(a1: Word, a2: Word, out: Word)
    requires
        a1 <= 3,
        a2 <= 3,
        out <= 3,
    ensures
        ((a1 << 6) | (a2 << 4) | out) >> 6 == a1,
        (((a1 << 6) | (a2 << 4) | out) >> 4) & 0x3 == a2,
        ((a1 << 6) | (a2 << 4) | out) & 0x3 == out,
{
    assert((((a1 << 6) | (a2 << 4) | out) >> 6 == a1) && ((((a1 << 6) | (a2 << 4) | out) >> 4) & 0x3
        == a2) && (((a1 << 6) | (a2 << 4) | out) & 0x3 == out)) by (bit_vector)
        requires
            a1 <= 3,
            a2 <= 3,
            out <= 3,
    ;
}

/// Masking a 4-bit selector with the low nibble leaves it unchanged.
proof fn lemma_low_nibble(w: Word)
    requires
        w <= 0xf,
    ensures
        w & 0xf == w,
{
    assert(w & 0xf == w) by (bit_vector)
        requires
            w <= 0xf,
    ;
}

/// Every register selector maps back to its register.
proof fn lemma_reg_roundtrip(r: RegisterRef)
    ensures
        RegisterRef::spec_from_word(r.spec_sel()) == Ok::<RegisterRef, DecodeError>(r),
        r.spec_sel() <= 0xf,
{
}

/// Every flag selector maps back to its flag.
proof fn lemma_flag_roundtrip(f: AluFlagRef)
    ensures
        AluFlagRef::spec_from_word(f.spec_sel()) == Ok::<AluFlagRef, DecodeError>(f),
        f.spec_sel() <= 0xf,
{
}

/// Round-trip of the wire encoding: decoding the encoding of any
/// well-formed instruction yields that instruction back.
#[verifier::rlimit(100)]
#[verifier::spinoff_prover]
pub proof fn lemma_decode_encode(i: Instruction)
    requires
        i.wf(),
    ensures
        spec_decode(spec_encode(i).0, spec_encode(i).1) == Ok::<Instruction, DecodeError>(i),
{
    let b1 = spec_encode(i).0;
    let b2 = spec_encode(i).1;
    match i {
        Instruction::Load { dest, addr } => {
            lemma_reg_roundtrip(dest);
            lemma_pack_nibbles(Opcode::Load.spec_value(), dest.spec_sel());
        },
        Instruction::LoadP { dest, addr_src } => {
            lemma_reg_roundtrip(dest);
            lemma_reg_roundtrip(addr_src);
            lemma_pack_nibbles(Opcode::LoadP.spec_value(), dest.spec_sel());
            lemma_low_nibble(addr_src.spec_sel());
        },
        Instruction::Store { src, addr } => {
            lemma_reg_roundtrip(src);
            lemma_pack_nibbles(Opcode::Store.spec_value(), src.spec_sel());
        },
        Instruction::StoreP { src, addr_src } => {
            lemma_reg_roundtrip(src);
            lemma_reg_roundtrip(addr_src);
            lemma_pack_nibbles(Opcode::StoreP.spec_value(), src.spec_sel());
            lemma_low_nibble(addr_src.spec_sel());
        },
        Instruction::Mov { dest, src } => {
            lemma_reg_roundtrip(dest);
            lemma_reg_roundtrip(src);
            lemma_pack_nibbles(Opcode::Mov.spec_value(), dest.spec_sel());
        },
        Instruction::MovC { dest, val } => {
            lemma_reg_roundtrip(dest);
            lemma_pack_nibbles(Opcode::MovC.spec_value(), dest.spec_sel());
        },
        Instruction::Jmp { flag, addr } => {
            lemma_flag_roundtrip(flag);
            lemma_pack_nibbles(Opcode::Jmp.spec_value(), flag.spec_sel());
        },
        Instruction::JmpP { flag, addr_src } => {
            lemma_flag_roundtrip(flag);
            lemma_reg_roundtrip(addr_src);
            lemma_pack_nibbles(Opcode::JmpP.spec_value(), flag.spec_sel());
            lemma_low_nibble(addr_src.spec_sel());
        },
        Instruction::JmpR { flag, diff } => {
            lemma_flag_roundtrip(flag);
            lemma_pack_nibbles(Opcode::JmpR.spec_value(), flag.spec_sel());
        },
        Instruction::JmpRP { flag, diff_src } => {
            lemma_flag_roundtrip(flag);
            lemma_reg_roundtrip(diff_src);
            lemma_pack_nibbles(Opcode::JmpRP.spec_value(), flag.spec_sel());
            lemma_low_nibble(diff_src.spec_sel());
        },
        Instruction::Stack(s) => {
            match s {
                StackInstruction::Push { src } => {
                    lemma_reg_roundtrip(src);
                    lemma_pack_nibbles(Opcode::Stack.spec_value(), StackOpcode::Push.spec_value());
                },
                StackInstruction::Pop { dest } => {
                    lemma_reg_roundtrip(dest);
                    lemma_pack_nibbles(Opcode::Stack.spec_value(), StackOpcode::Pop.spec_value());
                },
                StackInstruction::Call { addr_reg } => {
                    lemma_reg_roundtrip(addr_reg);
                    lemma_pack_nibbles(Opcode::Stack.spec_value(), StackOpcode::Call.spec_value());
                },
                StackInstruction::CallC { addr } => {
                    lemma_pack_nibbles(Opcode::Stack.spec_value(), StackOpcode::CallC.spec_value());
                },
                StackInstruction::CallR { diff } => {
                    lemma_pack_nibbles(Opcode::Stack.spec_value(), StackOpcode::CallR.spec_value());
                },
                StackInstruction::Ret { src } => {
                    lemma_reg_roundtrip(src);
                    lemma_pack_nibbles(Opcode::Stack.spec_value(), StackOpcode::Ret.spec_value());
                },
                StackInstruction::Load { dest, bp_diff } => {
                    let sub = match dest {
                        RegisterRef::A => StackOpcode::LoadA,
                        RegisterRef::B => StackOpcode::LoadB,
                        RegisterRef::C => StackOpcode::LoadC,
                        _ => StackOpcode::LoadD,
                    };
                    lemma_pack_nibbles(Opcode::Stack.spec_value(), sub.spec_value());
                },
            }
        },
        Instruction::Gpi { dest } => {
            lemma_reg_roundtrip(dest);
            lemma_pack_nibbles(Opcode::Gpio.spec_value(), 0x0);
            lemma_low_nibble(dest.spec_sel());
        },
        Instruction::Gpo { src } => {
            lemma_reg_roundtrip(src);
            lemma_pack_nibbles(Opcode::Gpio.spec_value(), 0x1);
            lemma_low_nibble(src.spec_sel());
        },
        Instruction::Alu { op, arg1, arg2, out } => {
            lemma_pack_nibbles(Opcode::Alu.spec_value(), op.spec_value());
            lemma_pack_alu(arg1.spec_sel(), arg2.spec_sel(), out.spec_sel());
        },
        Instruction::Nop(n) => {
            lemma_pack_nibbles(Opcode::Nop.spec_value(), 0x0);
        },
    }
}

} // verus!
