//! The ALU: result and flag semantics for the fourteen operations.
//!
//! Every ALU step recomputes all thirteen real flags from the two argument
//! values and the result of that step alone; no flag survives from earlier
//! steps. The overflow flags are set only by the five adder-based
//! operations and are cleared by all others.

use vstd::prelude::*;

use crate::isa::AluFlagRef;
use crate::isa::AluOpcode;
use crate::isa::Word;

verus! {

/// The thirteen real ALU flags, one field per flag.
#[derive(Clone, Copy, Debug, PartialEq, Eq, Structural)]
pub struct AluFlags {
    /// Z: the result byte of the last ALU step was 0.
    pub eq_zero: bool,
    /// Ou: the last adder-based step overflowed the unsigned range.
    pub overflow_unsigned: bool,
    /// Os: the last adder-based step overflowed the signed range.
    pub overflow_signed: bool,
    /// EQ: the argument bytes were equal.
    pub equal: bool,
    /// GT: arg1 > arg2 as unsigned bytes.
    pub greater_than: bool,
    /// GTs: arg1 > arg2 as signed bytes.
    pub greater_than_signed: bool,
    /// GE: GT or EQ.
    pub greater_or_equal: bool,
    /// GEs: GTs or EQ.
    pub greater_or_equal_signed: bool,
    /// NE: not EQ.
    pub not_equal: bool,
    /// LT: not GE.
    pub less_than: bool,
    /// LTs: not GEs.
    pub less_than_signed: bool,
    /// LE: not GT.
    pub less_or_equal: bool,
    /// LEs: not GTs.
    pub less_or_equal_signed: bool,
}

/// The value of a byte read as a two's-complement signed quantity.
pub open spec fn spec_signed(w: Word) -> int {
    if w < 128 {
        w as int
    } else {
        w as int - 256
    }
}

/// Addition of two bytes modulo 256, the wraparound rule for all address
/// and program-counter arithmetic.
pub open spec fn spec_addr_add(a: Word, b: Word) -> Word {
    ((a + b) % 256) as u8
}

impl AluFlags {
    /// The flag state of a freshly created machine: everything clear.
    pub open spec fn spec_clear() -> AluFlags {
        AluFlags {
            eq_zero: false,
            overflow_unsigned: false,
            overflow_signed: false,
            equal: false,
            greater_than: false,
            greater_than_signed: false,
            greater_or_equal: false,
            greater_or_equal_signed: false,
            not_equal: false,
            less_than: false,
            less_than_signed: false,
            less_or_equal: false,
            less_or_equal_signed: false,
        }
    }

    /// The value of one flag; the pseudo-flags are the constants 0 and 1.
    pub open spec fn spec_get(self, flag: AluFlagRef) -> bool {
        match flag {
            AluFlagRef::EqZero => self.eq_zero,
            AluFlagRef::OverflowUnsigned => self.overflow_unsigned,
            AluFlagRef::OverflowSigned => self.overflow_signed,
            AluFlagRef::Equal => self.equal,
            AluFlagRef::GreaterThan => self.greater_than,
            AluFlagRef::GreaterThanSigned => self.greater_than_signed,
            AluFlagRef::GreaterOrEqual => self.greater_or_equal,
            AluFlagRef::GreaterOrEqualSigned => self.greater_or_equal_signed,
            AluFlagRef::NotEqual => self.not_equal,
            AluFlagRef::LessThan => self.less_than,
            AluFlagRef::LessThanSigned => self.less_than_signed,
            AluFlagRef::LessOrEqual => self.less_or_equal,
            AluFlagRef::LessOrEqualSigned => self.less_or_equal_signed,
            AluFlagRef::False => false,
            AluFlagRef::True => true,
        }
    }

    /// The packed `FL` word: bits 0..7 are Z, Ou, Os, EQ, GT, GTs, GE, GEs.
    pub open spec fn spec_word(self) -> Word {
        ((if self.eq_zero {
            1int
        } else {
            0int
        }) + (if self.overflow_unsigned {
            2int
        } else {
            0int
        }) + (if self.overflow_signed {
            4int
        } else {
            0int
        }) + (if self.equal {
            8int
        } else {
            0int
        }) + (if self.greater_than {
            16int
        } else {
            0int
        }) + (if self.greater_than_signed {
            32int
        } else {
            0int
        }) + (if self.greater_or_equal {
            64int
        } else {
            0int
        }) + (if self.greater_or_equal_signed {
            128int
        } else {
            0int
        })) as u8
    }

    /// All flags clear, the initial state of a machine.
    pub fn new() -> (f: AluFlags)
        ensures
            f == AluFlags::spec_clear(),
    {
        AluFlags {
            eq_zero: false,
            overflow_unsigned: false,
            overflow_signed: false,
            equal: false,
            greater_than: false,
            greater_than_signed: false,
            greater_or_equal: false,
            greater_or_equal_signed: false,
            not_equal: false,
            less_than: false,
            less_than_signed: false,
            less_or_equal: false,
            less_or_equal_signed: false,
        }
    }

    /// Read one flag as a jump predicate.
    pub fn get(&self, flag: &AluFlagRef) -> (b: bool)
        ensures
            b == self.spec_get(*flag),
    {
        match *flag {
            AluFlagRef::EqZero => self.eq_zero,
            AluFlagRef::OverflowUnsigned => self.overflow_unsigned,
            AluFlagRef::OverflowSigned => self.overflow_signed,
            AluFlagRef::Equal => self.equal,
            AluFlagRef::GreaterThan => self.greater_than,
            AluFlagRef::GreaterThanSigned => self.greater_than_signed,
            AluFlagRef::GreaterOrEqual => self.greater_or_equal,
            AluFlagRef::GreaterOrEqualSigned => self.greater_or_equal_signed,
            AluFlagRef::NotEqual => self.not_equal,
            AluFlagRef::LessThan => self.less_than,
            AluFlagRef::LessThanSigned => self.less_than_signed,
            AluFlagRef::LessOrEqual => self.less_or_equal,
            AluFlagRef::LessOrEqualSigned => self.less_or_equal_signed,
            AluFlagRef::False => false,
            AluFlagRef::True => true,
        }
    }

    /// Pack the first eight flags into the `FL` word.
    pub fn as_word(&self) -> (w: Word)
        ensures
            w == self.spec_word(),
    {
        (if self.eq_zero {
            1
        } else {
            0
        }) + (if self.overflow_unsigned {
            2
        } else {
            0
        }) + (if self.overflow_signed {
            4
        } else {
            0
        }) + (if self.equal {
            8
        } else {
            0
        }) + (if self.greater_than {
            16
        } else {
            0
        }) + (if self.greater_than_signed {
            32
        } else {
            0
        }) + (if self.greater_or_equal {
            64
        } else {
            0
        }) + (if self.greater_or_equal_signed {
            128u8
        } else {
            0u8
        })
    }
}

/// Arithmetic right shift of a byte by `b & 7`, sign-extending the most
/// significant bit of `a`.
pub open spec fn spec_shift_right_arith(a: Word, b: Word) -> Word {
    let k = b & 7;
    if k == 0 {
        a
    } else if a >= 128 {
        (a >> k) | (0xffu8 << (8 - k) as u8)
    } else {
        a >> k
    }
}

/// The result byte of one ALU operation on the two argument bytes.
pub open spec fn spec_alu_result(op: AluOpcode, a: Word, b: Word) -> Word {
    match op {
        AluOpcode::Add => ((a + b) % 256) as u8,
        AluOpcode::AddCarry => ((a + b + 1) % 256) as u8,
        AluOpcode::Incr => ((a + 1) % 256) as u8,
        AluOpcode::Decr => ((a + 255) % 256) as u8,
        AluOpcode::Xor => a ^ b,
        AluOpcode::Neg => !b,
        AluOpcode::Sub => ((a + 256 - b) % 256) as u8,
        AluOpcode::Or => a | b,
        AluOpcode::And => a & b,
        AluOpcode::Nand => !(a & b),
        AluOpcode::Nor => !(a | b),
        AluOpcode::ShiftL => a << (b & 7),
        AluOpcode::ShiftR => spec_shift_right_arith(a, b),
        AluOpcode::Echo => a,
    }
}

/// Whether one ALU operation overflows the unsigned byte range. Only the
/// five adder-based operations can; all others leave the flag clear.
pub open spec fn spec_overflow_unsigned(op: AluOpcode, a: Word, b: Word) -> bool {
    match op {
        AluOpcode::Add => a + b > 255,
        AluOpcode::AddCarry => a + b + 1 > 255,
        AluOpcode::Incr => a + 1 > 255,
        AluOpcode::Decr => a + 255 > 255,
        AluOpcode::Sub => a + 256 - b > 255,
        _ => false,
    }
}

/// Whether one ALU operation overflows the signed byte range. Only the
/// five adder-based operations can; all others leave the flag clear.
pub open spec fn spec_overflow_signed(op: AluOpcode, a: Word, b: Word) -> bool {
    match op {
        AluOpcode::Add => !(-128 <= spec_signed(a) + spec_signed(b) <= 127),
        AluOpcode::AddCarry => !(-128 <= spec_signed(a) + spec_signed(b) + 1 <= 127),
        AluOpcode::Incr => !(-128 <= spec_signed(a) + 1 <= 127),
        AluOpcode::Decr => !(-128 <= spec_signed(a) - 1 <= 127),
        AluOpcode::Sub => !(-128 <= spec_signed(a) - spec_signed(b) <= 127),
        _ => false,
    }
}

/// The full flag state after one ALU operation: Z from the result, Ou/Os
/// from the adder, and the ten comparison flags from the argument bytes
/// read as unsigned and as signed quantities.
pub open spec fn spec_alu_flags(op: AluOpcode, a: Word, b: Word) -> AluFlags {
    let equal = a == b;
    let greater_than = a > b;
    let greater_than_signed = spec_signed(a) > spec_signed(b);
    AluFlags {
        eq_zero: spec_alu_result(op, a, b) == 0,
        overflow_unsigned: spec_overflow_unsigned(op, a, b),
        overflow_signed: spec_overflow_signed(op, a, b),
        equal: equal,
        greater_than: greater_than,
        greater_than_signed: greater_than_signed,
        greater_or_equal: greater_than || equal,
        greater_or_equal_signed: greater_than_signed || equal,
        not_equal: !equal,
        less_than: !(greater_than || equal),
        less_than_signed: !(greater_than_signed || equal),
        less_or_equal: !greater_than,
        less_or_equal_signed: !greater_than_signed,
    }
}

/// A shift count masked to three bits stays below the byte width.
proof fn lemma_shift_count(b: Word)
    ensures
        b & 7 < 8,
{
    assert(b & 7 < 8) by (bit_vector);
}

/// The signed reading of a byte, as a machine integer.
fn signed_value(w: Word) -> (v: i16)
    ensures
        v == spec_signed(w),
{
    if w >= 128 {
        w as i16 - 256
    } else {
        w as i16
    }
}

/// Compute the result byte of one ALU operation.
pub fn alu_result(op: AluOpcode, a: Word, b: Word) -> (r: Word)
    ensures
        r == spec_alu_result(op, a, b),
{
    match op {
        AluOpcode::Add => ((a as u16 + b as u16) % 256) as u8,
        AluOpcode::AddCarry => ((a as u16 + b as u16 + 1) % 256) as u8,
        AluOpcode::Incr => ((a as u16 + 1) % 256) as u8,
        AluOpcode::Decr => ((a as u16 + 255) % 256) as u8,
        AluOpcode::Xor => a ^ b,
        AluOpcode::Neg => !b,
        AluOpcode::Sub => ((a as u16 + 256 - b as u16) % 256) as u8,
        AluOpcode::Or => a | b,
        AluOpcode::And => a & b,
        AluOpcode::Nand => !(a & b),
        AluOpcode::Nor => !(a | b),
        AluOpcode::ShiftL => {
            let k = b & 7;
            proof {
                lemma_shift_count(b);
            }
            a << k
        },
        AluOpcode::ShiftR => {
            let k = b & 7;
            proof {
                lemma_shift_count(b);
            }
            if k == 0 {
                a
            } else if a >= 128 {
                (a >> k) | (0xffu8 << (8 - k))
            } else {
                a >> k
            }
        },
        AluOpcode::Echo => a,
    }
}

/// Compute the full flag state of one ALU operation.
pub fn alu_flags(op: AluOpcode, a: Word, b: Word, result: Word) -> (f: AluFlags)
    requires
        result == spec_alu_result(op, a, b),
    ensures
        f == spec_alu_flags(op, a, b),
{
    let equal = a == b;
    let greater_than = a > b;
    let sa = signed_value(a);
    let sb = signed_value(b);
    let greater_than_signed = sa > sb;
    let overflow_unsigned = match op {
        AluOpcode::Add => a as u16 + b as u16 > 255,
        AluOpcode::AddCarry => a as u16 + b as u16 + 1 > 255,
        AluOpcode::Incr => a == 255,
        AluOpcode::Decr => a >= 1,
        AluOpcode::Sub => a >= b,
        _ => false,
    };
    let overflow_signed = match op {
        AluOpcode::Add => !(-128 <= sa + sb && sa + sb <= 127),
        AluOpcode::AddCarry => !(-128 <= sa + sb + 1 && sa + sb + 1 <= 127),
        AluOpcode::Incr => a == 127,
        AluOpcode::Decr => a == 128,
        AluOpcode::Sub => !(-128 <= sa - sb && sa - sb <= 127),
        _ => false,
    };
    AluFlags {
        eq_zero: result == 0,
        overflow_unsigned,
        overflow_signed,
        equal,
        greater_than,
        greater_than_signed,
        greater_or_equal: greater_than || equal,
        greater_or_equal_signed: greater_than_signed || equal,
        not_equal: !equal,
        less_than: !(greater_than || equal),
        less_than_signed: !(greater_than_signed || equal),
        less_or_equal: !greater_than,
        less_or_equal_signed: !greater_than_signed,
    }
}

/// Flag exclusivity: after any ALU operation, each comparison flag and its
/// complement disagree. EQ and NE never agree, and the same holds for the
/// pairs GT/LE, GTs/LEs, GE/LT and GEs/LTs.
pub proof fn lemma_flag_exclusivity(op: AluOpcode, a: Word, b: Word)
    ensures
        spec_alu_flags(op, a, b).equal != spec_alu_flags(op, a, b).not_equal,
        spec_alu_flags(op, a, b).greater_than != spec_alu_flags(op, a, b).less_or_equal,
        spec_alu_flags(op, a, b).greater_than_signed != spec_alu_flags(
            op,
            a,
            b,
        ).less_or_equal_signed,
        spec_alu_flags(op, a, b).greater_or_equal != spec_alu_flags(op, a, b).less_than,
        spec_alu_flags(op, a, b).greater_or_equal_signed != spec_alu_flags(
            op,
            a,
            b,
        ).less_than_signed,
{
}

} // verus!
