//! The line-oriented assembler.
//!
//! A source text is split on newlines; each line is trimmed, blank lines
//! and `#` comments are skipped, and the rest are tokenized on single
//! spaces and matched against the mnemonic table. Assembly stops at the
//! first bad line. The whole pipeline is specified functionally over the
//! character sequences of the source.

use vstd::prelude::*;

use crate::alu::AluFlags;
use crate::isa::Instruction;
use crate::isa::NopOpcode;
use crate::isa::RegisterRef;
use crate::isa::StackInstruction;
use crate::isa::Word;
use crate::machine::spec_pad256;
use crate::machine::LegComputer;
use crate::registers::Registers;
use crate::text::split_char;
use crate::text::split_str;
use crate::text::spec_trim;
use crate::text::str_eq;
use crate::text::trim_str;

verus! {

/// An assembly failure, naming the offending token or line.
#[derive(Debug, Clone, PartialEq, Eq)]
pub enum AsmError {
    /// No mnemonic pattern matches the line.
    UnknownInstruction { line: String },
    /// An integer token is not a decimal number.
    NotANumber { token: String },
    /// An integer token is outside the signed/unsigned byte range.
    NumberOutOfRange { token: String },
    /// A register token names no register.
    UnknownRegister { token: String },
    /// A register token names a register that this operand cannot use:
    /// ALU operands and stack-frame loads take only `A`..`D`.
    RegisterNotGeneral { token: String },
    /// A flag token names no jump predicate.
    UnknownFlag { token: String },
    /// An ALU operation token names no operation.
    UnknownAluOp { token: String },
}

/// The mathematical form of an assembly failure.
pub ghost enum AsmErrorV {
    UnknownInstruction { line: Seq<char> },
    NotANumber { token: Seq<char> },
    NumberOutOfRange { token: Seq<char> },
    UnknownRegister { token: Seq<char> },
    RegisterNotGeneral { token: Seq<char> },
    UnknownFlag { token: Seq<char> },
    UnknownAluOp { token: Seq<char> },
}

impl View for AsmError {
    type V = AsmErrorV;

    open spec fn view(&self) -> AsmErrorV {
        match self {
            AsmError::UnknownInstruction { line } => AsmErrorV::UnknownInstruction { line: line@ },
            AsmError::NotANumber { token } => AsmErrorV::NotANumber { token: token@ },
            AsmError::NumberOutOfRange { token } => AsmErrorV::NumberOutOfRange { token: token@ },
            AsmError::UnknownRegister { token } => AsmErrorV::UnknownRegister { token: token@ },
            AsmError::RegisterNotGeneral { token } => AsmErrorV::RegisterNotGeneral {
                token: token@,
            },
            AsmError::UnknownFlag { token } => AsmErrorV::UnknownFlag { token: token@ },
            AsmError::UnknownAluOp { token } => AsmErrorV::UnknownAluOp { token: token@ },
        }
    }
}

/// The mathematical form of a parse result.
pub open spec fn spec_result_view<T>(r: Result<T, AsmError>) -> Result<T, AsmErrorV> {
    match r {
        Ok(v) => Ok(v),
        Err(e) => Err(e@),
    }
}

/// The mathematical form of an assembly result.
pub open spec fn spec_assemble_view(r: Result<Vec<Instruction>, AsmError>) -> Result<
    Seq<Instruction>,
    AsmErrorV,
> {
    match r {
        Ok(v) => Ok(v@),
        Err(e) => Err(e@),
    }
}

/// The register a name denotes.
pub open spec fn spec_parse_register(t: Seq<char>) -> Result<RegisterRef, AsmErrorV> {
    if t == "A"@ {
        Ok(RegisterRef::A)
    } else if t == "B"@ {
        Ok(RegisterRef::B)
    } else if t == "C"@ {
        Ok(RegisterRef::C)
    } else if t == "D"@ {
        Ok(RegisterRef::D)
    } else if t == "FL"@ {
        Ok(RegisterRef::FL)
    } else if t == "ST"@ {
        Ok(RegisterRef::ST)
    } else if t == "BP"@ {
        Ok(RegisterRef::BP)
    } else if t == "IP"@ {
        Ok(RegisterRef::IP)
    } else {
        Err(AsmErrorV::UnknownRegister { token: t })
    }
}

/// The general-purpose register a name denotes; operands that the wire
/// form packs into two bits take only `A`..`D`.
pub open spec fn spec_parse_general(t: Seq<char>) -> Result<RegisterRef, AsmErrorV> {
    match spec_parse_register(t) {
        Err(e) => Err(e),
        Ok(r) => if r.is_general() {
            Ok(r)
        } else {
            Err(AsmErrorV::RegisterNotGeneral { token: t })
        },
    }
}

/// The jump predicate a name denotes.
pub open spec fn spec_parse_flag(t: Seq<char>) -> Result<crate::isa::AluFlagRef, AsmErrorV> {
    if t == "Z"@ {
        Ok(crate::isa::AluFlagRef::EqZero)
    } else if t == "Ou"@ {
        Ok(crate::isa::AluFlagRef::OverflowUnsigned)
    } else if t == "Os"@ {
        Ok(crate::isa::AluFlagRef::OverflowSigned)
    } else if t == "EQ"@ {
        Ok(crate::isa::AluFlagRef::Equal)
    } else if t == "GT"@ {
        Ok(crate::isa::AluFlagRef::GreaterThan)
    } else if t == "GTs"@ {
        Ok(crate::isa::AluFlagRef::GreaterThanSigned)
    } else if t == "GE"@ {
        Ok(crate::isa::AluFlagRef::GreaterOrEqual)
    } else if t == "GEs"@ {
        Ok(crate::isa::AluFlagRef::GreaterOrEqualSigned)
    } else if t == "NE"@ {
        Ok(crate::isa::AluFlagRef::NotEqual)
    } else if t == "LT"@ {
        Ok(crate::isa::AluFlagRef::LessThan)
    } else if t == "LTs"@ {
        Ok(crate::isa::AluFlagRef::LessThanSigned)
    } else if t == "LE"@ {
        Ok(crate::isa::AluFlagRef::LessOrEqual)
    } else if t == "LEs"@ {
        Ok(crate::isa::AluFlagRef::LessOrEqualSigned)
    } else if t == "F"@ {
        Ok(crate::isa::AluFlagRef::False)
    } else if t == "T"@ {
        Ok(crate::isa::AluFlagRef::True)
    } else {
        Err(AsmErrorV::UnknownFlag { token: t })
    }
}

/// The ALU operation a name denotes.
pub open spec fn spec_parse_alu_op(t: Seq<char>) -> Result<crate::isa::AluOpcode, AsmErrorV> {
    if t == "ADD"@ {
        Ok(crate::isa::AluOpcode::Add)
    } else if t == "ADDC"@ {
        Ok(crate::isa::AluOpcode::AddCarry)
    } else if t == "INCR"@ {
        Ok(crate::isa::AluOpcode::Incr)
    } else if t == "DECR"@ {
        Ok(crate::isa::AluOpcode::Decr)
    } else if t == "XOR"@ {
        Ok(crate::isa::AluOpcode::Xor)
    } else if t == "NEG"@ {
        Ok(crate::isa::AluOpcode::Neg)
    } else if t == "SUB"@ {
        Ok(crate::isa::AluOpcode::Sub)
    } else if t == "OR"@ {
        Ok(crate::isa::AluOpcode::Or)
    } else if t == "AND"@ {
        Ok(crate::isa::AluOpcode::And)
    } else if t == "NAND"@ {
        Ok(crate::isa::AluOpcode::Nand)
    } else if t == "NOR"@ {
        Ok(crate::isa::AluOpcode::Nor)
    } else if t == "SHIFTL"@ {
        Ok(crate::isa::AluOpcode::ShiftL)
    } else if t == "SHIFTR"@ {
        Ok(crate::isa::AluOpcode::ShiftR)
    } else if t == "ECHO"@ {
        Ok(crate::isa::AluOpcode::Echo)
    } else {
        Err(AsmErrorV::UnknownAluOp { token: t })
    }
}

/// Whether a character is a decimal digit.
pub open spec fn is_digit(c: char) -> bool {
    48 <= c as u32 <= 57
}

/// The value of a decimal digit character.
pub open spec fn digit_val(c: char) -> int {
    c as u32 - 48
}

/// The value of a string of decimal digits, most significant first.
pub open spec fn digits_val(d: Seq<char>) -> int
    decreases d.len(),
{
    if d.len() == 0 {
        0
    } else {
        digits_val(d.drop_last()) * 10 + digit_val(d.last())
    }
}

/// Whether every character is a decimal digit.
pub open spec fn all_digits(d: Seq<char>) -> bool {
    forall|k: int| 0 <= k < d.len() ==> is_digit(d[k])
}

/// The integer a token denotes: an optional sign and decimal digits.
pub open spec fn spec_parse_int(t: Seq<char>) -> Option<int> {
    if t.len() == 0 {
        None
    } else {
        let neg = t[0] == '-';
        let digits = if t[0] == '-' || t[0] == '+' {
            t.drop_first()
        } else {
            t
        };
        if digits.len() == 0 || !all_digits(digits) {
            None
        } else if neg {
            Some(-digits_val(digits))
        } else {
            Some(digits_val(digits))
        }
    }
}

/// The byte a literal token denotes: decimal, negatives accepted and
/// reduced modulo 256, anything outside the representable signed or
/// unsigned byte range rejected.
pub open spec fn spec_parse_word(t: Seq<char>) -> Result<Word, AsmErrorV> {
    match spec_parse_int(t) {
        Option::None => Err(AsmErrorV::NotANumber { token: t }),
        Option::Some(v) => if -128 <= v <= 255 {
            Ok((v % 256) as u8)
        } else {
            Err(AsmErrorV::NumberOutOfRange { token: t })
        },
    }
}

/// A four-token line with `=>` or `?` as its third token: the data-move
/// forms.
pub open spec fn spec_parse_mem4(t: Seq<Seq<char>>) -> Option<Result<Instruction, AsmErrorV>> {
    if t[0] == "LOAD"@ && t[2] == "=>"@ {
        Some(
            match spec_parse_word(t[1]) {
                Err(e) => Err(e),
                Ok(addr) => match spec_parse_register(t[3]) {
                    Err(e) => Err(e),
                    Ok(dest) => Ok(Instruction::Load { dest, addr }),
                },
            },
        )
    } else if t[0] == "LOADP"@ && t[2] == "=>"@ {
        Some(
            match spec_parse_register(t[1]) {
                Err(e) => Err(e),
                Ok(addr_src) => match spec_parse_register(t[3]) {
                    Err(e) => Err(e),
                    Ok(dest) => Ok(Instruction::LoadP { dest, addr_src }),
                },
            },
        )
    } else if t[0] == "STORE"@ && t[2] == "=>"@ {
        Some(
            match spec_parse_register(t[1]) {
                Err(e) => Err(e),
                Ok(src) => match spec_parse_word(t[3]) {
                    Err(e) => Err(e),
                    Ok(addr) => Ok(Instruction::Store { src, addr }),
                },
            },
        )
    } else if t[0] == "STOREP"@ && t[2] == "=>"@ {
        Some(
            match spec_parse_register(t[1]) {
                Err(e) => Err(e),
                Ok(src) => match spec_parse_register(t[3]) {
                    Err(e) => Err(e),
                    Ok(addr_src) => Ok(Instruction::StoreP { src, addr_src }),
                },
            },
        )
    } else if t[0] == "MOV"@ && t[2] == "=>"@ {
        Some(
            match spec_parse_register(t[1]) {
                Err(e) => Err(e),
                Ok(src) => match spec_parse_register(t[3]) {
                    Err(e) => Err(e),
                    Ok(dest) => Ok(Instruction::Mov { dest, src }),
                },
            },
        )
    } else if t[0] == "MOVC"@ && t[2] == "=>"@ {
        Some(
            match spec_parse_word(t[1]) {
                Err(e) => Err(e),
                Ok(val) => match spec_parse_register(t[3]) {
                    Err(e) => Err(e),
                    Ok(dest) => Ok(Instruction::MovC { dest, val }),
                },
            },
        )
    } else {
        None
    }
}

/// A four-token line: the jump forms and the stack-frame load.
pub open spec fn spec_parse_jump4(t: Seq<Seq<char>>) -> Option<Result<Instruction, AsmErrorV>> {
    if t[0] == "JMP"@ && t[2] == "?"@ {
        Some(
            match spec_parse_flag(t[1]) {
                Err(e) => Err(e),
                Ok(flag) => match spec_parse_word(t[3]) {
                    Err(e) => Err(e),
                    Ok(addr) => Ok(Instruction::Jmp { flag, addr }),
                },
            },
        )
    } else if t[0] == "JMPP"@ && t[2] == "?"@ {
        Some(
            match spec_parse_flag(t[1]) {
                Err(e) => Err(e),
                Ok(flag) => match spec_parse_register(t[3]) {
                    Err(e) => Err(e),
                    Ok(addr_src) => Ok(Instruction::JmpP { flag, addr_src }),
                },
            },
        )
    } else if t[0] == "JMPR"@ && t[2] == "?"@ {
        Some(
            match spec_parse_flag(t[1]) {
                Err(e) => Err(e),
                Ok(flag) => match spec_parse_word(t[3]) {
                    Err(e) => Err(e),
                    Ok(diff) => Ok(Instruction::JmpR { flag, diff }),
                },
            },
        )
    } else if t[0] == "JMPRP"@ && t[2] == "?"@ {
        Some(
            match spec_parse_flag(t[1]) {
                Err(e) => Err(e),
                Ok(flag) => match spec_parse_register(t[3]) {
                    Err(e) => Err(e),
                    Ok(diff_src) => Ok(Instruction::JmpRP { flag, diff_src }),
                },
            },
        )
    } else if t[0] == "SLOAD"@ && t[2] == "=>"@ {
        Some(
            match spec_parse_general(t[3]) {
                Err(e) => Err(e),
                Ok(dest) => match spec_parse_word(t[1]) {
                    Err(e) => Err(e),
                    Ok(bp_diff) => Ok(Instruction::Stack(StackInstruction::Load { dest, bp_diff })),
                },
            },
        )
    } else {
        None
    }
}

/// A two-token line: the one-operand stack forms.
pub open spec fn spec_parse_n2(t: Seq<Seq<char>>) -> Option<Result<Instruction, AsmErrorV>> {
    if t[0] == "PUSH"@ {
        Some(
            match spec_parse_register(t[1]) {
                Err(e) => Err(e),
                Ok(src) => Ok(Instruction::Stack(StackInstruction::Push { src })),
            },
        )
    } else if t[0] == "POP"@ {
        Some(
            match spec_parse_register(t[1]) {
                Err(e) => Err(e),
                Ok(dest) => Ok(Instruction::Stack(StackInstruction::Pop { dest })),
            },
        )
    } else if t[0] == "CALL"@ {
        Some(
            match spec_parse_register(t[1]) {
                Err(e) => Err(e),
                Ok(addr_reg) => Ok(Instruction::Stack(StackInstruction::Call { addr_reg })),
            },
        )
    } else if t[0] == "CALLC"@ {
        Some(
            match spec_parse_word(t[1]) {
                Err(e) => Err(e),
                Ok(addr) => Ok(Instruction::Stack(StackInstruction::CallC { addr })),
            },
        )
    } else if t[0] == "CALLR"@ {
        Some(
            match spec_parse_word(t[1]) {
                Err(e) => Err(e),
                Ok(diff) => Ok(Instruction::Stack(StackInstruction::CallR { diff })),
            },
        )
    } else if t[0] == "RET"@ {
        Some(
            match spec_parse_register(t[1]) {
                Err(e) => Err(e),
                Ok(src) => Ok(Instruction::Stack(StackInstruction::Ret { src })),
            },
        )
    } else {
        None
    }
}

/// A three-token line: the port forms.
pub open spec fn spec_parse_n3(t: Seq<Seq<char>>) -> Option<Result<Instruction, AsmErrorV>> {
    if t[0] == "GPI"@ && t[2] == "<="@ {
        Some(
            match spec_parse_register(t[1]) {
                Err(e) => Err(e),
                Ok(dest) => Ok(Instruction::Gpi { dest }),
            },
        )
    } else if t[0] == "GPO"@ && t[2] == "=>"@ {
        Some(
            match spec_parse_register(t[1]) {
                Err(e) => Err(e),
                Ok(src) => Ok(Instruction::Gpo { src }),
            },
        )
    } else {
        None
    }
}

/// A six-token line: the ALU form.
pub open spec fn spec_parse_n6(t: Seq<Seq<char>>) -> Option<Result<Instruction, AsmErrorV>> {
    if t[0] == "ALU"@ && t[4] == "=>"@ {
        Some(
            match spec_parse_alu_op(t[1]) {
                Err(e) => Err(e),
                Ok(op) => match spec_parse_general(t[2]) {
                    Err(e) => Err(e),
                    Ok(arg1) => match spec_parse_general(t[3]) {
                        Err(e) => Err(e),
                        Ok(arg2) => match spec_parse_general(t[5]) {
                            Err(e) => Err(e),
                            Ok(out) => Ok(Instruction::Alu { op, arg1, arg2, out }),
                        },
                    },
                },
            },
        )
    } else {
        None
    }
}

/// A one-token line: the NOP family.
pub open spec fn spec_parse_n1(t: Seq<Seq<char>>) -> Option<Result<Instruction, AsmErrorV>> {
    if t[0] == "NOP"@ {
        Some(Ok(Instruction::Nop(NopOpcode::Nop)))
    } else if t[0] == "HALT"@ {
        Some(Ok(Instruction::Nop(NopOpcode::Halt)))
    } else {
        None
    }
}

/// The instruction a token list denotes, or `None` when no mnemonic
/// pattern has this shape.
pub open spec fn spec_parse_tokens(t: Seq<Seq<char>>) -> Option<Result<Instruction, AsmErrorV>> {
    if t.len() == 4 {
        match spec_parse_mem4(t) {
            Some(r) => Some(r),
            None => spec_parse_jump4(t),
        }
    } else if t.len() == 2 {
        spec_parse_n2(t)
    } else if t.len() == 3 {
        spec_parse_n3(t)
    } else if t.len() == 6 {
        spec_parse_n6(t)
    } else if t.len() == 1 {
        spec_parse_n1(t)
    } else {
        None
    }
}

/// The instruction a (trimmed) line denotes.
pub open spec fn spec_parse_line(line: Seq<char>) -> Result<Instruction, AsmErrorV> {
    match spec_parse_tokens(split_char(line, ' ')) {
        Some(r) => r,
        None => Err(AsmErrorV::UnknownInstruction { line: line }),
    }
}

/// The instructions a list of source lines denotes: each line trimmed,
/// blanks and `#` comments skipped, and the first failure reported.
pub open spec fn spec_assemble_lines(lines: Seq<Seq<char>>) -> Result<Seq<Instruction>, AsmErrorV>
    decreases lines.len(),
{
    if lines.len() == 0 {
        Ok(Seq::<Instruction>::empty())
    } else {
        let t = spec_trim(lines[0]);
        if t.len() == 0 || t[0] == '#' {
            spec_assemble_lines(lines.drop_first())
        } else {
            match spec_parse_line(t) {
                Err(e) => Err(e),
                Ok(i) => match spec_assemble_lines(lines.drop_first()) {
                    Err(e) => Err(e),
                    Ok(s) => Ok(seq![i] + s),
                },
            }
        }
    }
}

/// The instructions a source text denotes.
pub open spec fn spec_assemble(src: Seq<char>) -> Result<Seq<Instruction>, AsmErrorV> {
    spec_assemble_lines(split_char(src, '\n'))
}

/// Every instruction the line parser accepts is well-formed, so it can
/// be encoded.
pub proof fn lemma_parse_line_wf(line: Seq<char>)
    ensures
        spec_parse_line(line) matches Ok(i) ==> i.wf(),
{
}

/// Parse a register name.
fn parse_register(t: &str) -> (r: Result<RegisterRef, AsmError>)
    ensures
        spec_result_view(r) == spec_parse_register(t@),
{
    if str_eq(t, "A") {
        Ok(RegisterRef::A)
    } else if str_eq(t, "B") {
        Ok(RegisterRef::B)
    } else if str_eq(t, "C") {
        Ok(RegisterRef::C)
    } else if str_eq(t, "D") {
        Ok(RegisterRef::D)
    } else if str_eq(t, "FL") {
        Ok(RegisterRef::FL)
    } else if str_eq(t, "ST") {
        Ok(RegisterRef::ST)
    } else if str_eq(t, "BP") {
        Ok(RegisterRef::BP)
    } else if str_eq(t, "IP") {
        Ok(RegisterRef::IP)
    } else {
        Err(AsmError::UnknownRegister { token: String::from_str(t) })
    }
}

/// Parse a register name restricted to `A`..`D`.
fn parse_general(t: &str) -> (r: Result<RegisterRef, AsmError>)
    ensures
        spec_result_view(r) == spec_parse_general(t@),
{
    match parse_register(t) {
        Err(e) => Err(e),
        Ok(r) => match r {
            RegisterRef::A | RegisterRef::B | RegisterRef::C | RegisterRef::D => Ok(r),
            _ => Err(AsmError::RegisterNotGeneral { token: String::from_str(t) }),
        },
    }
}

/// Parse a flag name.
fn parse_flag(t: &str) -> (r: Result<crate::isa::AluFlagRef, AsmError>)
    ensures
        spec_result_view(r) == spec_parse_flag(t@),
{
    if str_eq(t, "Z") {
        Ok(crate::isa::AluFlagRef::EqZero)
    } else if str_eq(t, "Ou") {
        Ok(crate::isa::AluFlagRef::OverflowUnsigned)
    } else if str_eq(t, "Os") {
        Ok(crate::isa::AluFlagRef::OverflowSigned)
    } else if str_eq(t, "EQ") {
        Ok(crate::isa::AluFlagRef::Equal)
    } else if str_eq(t, "GT") {
        Ok(crate::isa::AluFlagRef::GreaterThan)
    } else if str_eq(t, "GTs") {
        Ok(crate::isa::AluFlagRef::GreaterThanSigned)
    } else if str_eq(t, "GE") {
        Ok(crate::isa::AluFlagRef::GreaterOrEqual)
    } else if str_eq(t, "GEs") {
        Ok(crate::isa::AluFlagRef::GreaterOrEqualSigned)
    } else if str_eq(t, "NE") {
        Ok(crate::isa::AluFlagRef::NotEqual)
    } else if str_eq(t, "LT") {
        Ok(crate::isa::AluFlagRef::LessThan)
    } else if str_eq(t, "LTs") {
        Ok(crate::isa::AluFlagRef::LessThanSigned)
    } else if str_eq(t, "LE") {
        Ok(crate::isa::AluFlagRef::LessOrEqual)
    } else if str_eq(t, "LEs") {
        Ok(crate::isa::AluFlagRef::LessOrEqualSigned)
    } else if str_eq(t, "F") {
        Ok(crate::isa::AluFlagRef::False)
    } else if str_eq(t, "T") {
        Ok(crate::isa::AluFlagRef::True)
    } else {
        Err(AsmError::UnknownFlag { token: String::from_str(t) })
    }
}

/// Parse an ALU operation name.
fn parse_alu_op(t: &str) -> (r: Result<crate::isa::AluOpcode, AsmError>)
    ensures
        spec_result_view(r) == spec_parse_alu_op(t@),
{
    if str_eq(t, "ADD") {
        Ok(crate::isa::AluOpcode::Add)
    } else if str_eq(t, "ADDC") {
        Ok(crate::isa::AluOpcode::AddCarry)
    } else if str_eq(t, "INCR") {
        Ok(crate::isa::AluOpcode::Incr)
    } else if str_eq(t, "DECR") {
        Ok(crate::isa::AluOpcode::Decr)
    } else if str_eq(t, "XOR") {
        Ok(crate::isa::AluOpcode::Xor)
    } else if str_eq(t, "NEG") {
        Ok(crate::isa::AluOpcode::Neg)
    } else if str_eq(t, "SUB") {
        Ok(crate::isa::AluOpcode::Sub)
    } else if str_eq(t, "OR") {
        Ok(crate::isa::AluOpcode::Or)
    } else if str_eq(t, "AND") {
        Ok(crate::isa::AluOpcode::And)
    } else if str_eq(t, "NAND") {
        Ok(crate::isa::AluOpcode::Nand)
    } else if str_eq(t, "NOR") {
        Ok(crate::isa::AluOpcode::Nor)
    } else if str_eq(t, "SHIFTL") {
        Ok(crate::isa::AluOpcode::ShiftL)
    } else if str_eq(t, "SHIFTR") {
        Ok(crate::isa::AluOpcode::ShiftR)
    } else if str_eq(t, "ECHO") {
        Ok(crate::isa::AluOpcode::Echo)
    } else {
        Err(AsmError::UnknownAluOp { token: String::from_str(t) })
    }
}

/// Parse an integer literal token to a byte, reducing negatives mod 256.
#[verifier::loop_isolation(false)]
fn parse_word(t: &str) -> (r: Result<Word, AsmError>)
    ensures
        spec_result_view(r) == spec_parse_word(t@),
{
    let n = t.unicode_len();
    if n == 0 {
        return Err(AsmError::NotANumber { token: String::from_str(t) });
    }
    let first = t.get_char(0);
    let neg = first == '-';
    let start: usize = if first == '-' || first == '+' {
        1
    } else {
        0
    };
    let ghost digits = if start == 1 {
        t@.drop_first()
    } else {
        t@
    };
    proof {
        assert(digits =~= t@.subrange(start as int, n as int));
    }
    if n == start {
        return Err(AsmError::NotANumber { token: String::from_str(t) });
    }
    let mut acc: u32 = 0;
    let mut i: usize = start;
    proof {
        assert(t@.subrange(start as int, start as int) =~= Seq::<char>::empty());
    }
    while i < n
        invariant
            start <= i <= n,
            n == t@.len(),
            start <= 1,
            digits =~= t@.subrange(start as int, n as int),
            forall|k: int| start <= k < i ==> is_digit(t@[k]),
            ({
                let dv = digits_val(t@.subrange(start as int, i as int));
                (0 <= dv) && if dv < 1000 {
                    acc == dv
                } else {
                    1000 <= acc <= 9999 && dv >= 1000
                }
            }),
        decreases n - i,
    {
        let c = t.get_char(i);
        let d = c as u32;
        if d < 48 || d > 57 {
            proof {
                assert(!all_digits(digits)) by {
                    assert(0 <= i - start < digits.len());
                    assert(digits[i as int - start as int] == t@[i as int]);
                    assert(!is_digit(digits[i as int - start as int]));
                }
            }
            return Err(AsmError::NotANumber { token: String::from_str(t) });
        }
        proof {
            let pre = t@.subrange(start as int, i as int);
            let ext = t@.subrange(start as int, i as int + 1);
            assert(ext.drop_last() =~= pre);
            assert(ext.last() == t@[i as int]);
        }
        if acc < 1000 {
            acc = acc * 10 + (d - 48);
        }
        i = i + 1;
    }
    proof {
        assert(forall|k: int| 0 <= k < digits.len() ==> is_digit(digits[k]));
        assert(digits_val(digits) == digits_val(t@.subrange(start as int, n as int)));
    }
    let ghost dv = digits_val(digits);
    if neg {
        if acc > 128 {
            return Err(AsmError::NumberOutOfRange { token: String::from_str(t) });
        }
        let w = ((256 - acc) % 256) as u8;
        proof {
            assert(spec_parse_int(t@) == Option::Some(-dv));
            assert(-128 <= -dv <= 255);
            assert((-dv) % 256 == (256 - dv) % 256) by {
                assert((-dv) % 256 == (-dv + 256) % 256) by (nonlinear_arith);
            }
            assert((256 - dv) % 256 == if dv == 0 { 0int } else { 256 - dv });
        }
        Ok(w)
    } else {
        if acc > 255 {
            return Err(AsmError::NumberOutOfRange { token: String::from_str(t) });
        }
        proof {
            assert(spec_parse_int(t@) == Option::Some(dv));
            assert(dv % 256 == dv);
        }
        Ok(acc as u8)
    }
}

/// Parse a four-token data-move line.
fn parse_mem4(tokens: &Vec<&str>) -> (r: Option<Result<Instruction, AsmError>>)
    requires
        tokens@.len() == 4,
    ensures
        ({
            let s = spec_parse_mem4(tokens.deep_view());
            match r {
                Some(x) => s == Some(spec_result_view(x)),
                None => s is None,
            }
        }),
{
    proof {
        assert(forall|k: int|
            0 <= k < tokens@.len() ==> tokens.deep_view()[k] == #[trigger] tokens@[k]@);
    }
    if str_eq(tokens[0], "LOAD") && str_eq(tokens[2], "=>") {
        Some(
            match parse_word(tokens[1]) {
                Err(e) => Err(e),
                Ok(addr) => match parse_register(tokens[3]) {
                    Err(e) => Err(e),
                    Ok(dest) => Ok(Instruction::Load { dest, addr }),
                },
            },
        )
    } else if str_eq(tokens[0], "LOADP") && str_eq(tokens[2], "=>") {
        Some(
            match parse_register(tokens[1]) {
                Err(e) => Err(e),
                Ok(addr_src) => match parse_register(tokens[3]) {
                    Err(e) => Err(e),
                    Ok(dest) => Ok(Instruction::LoadP { dest, addr_src }),
                },
            },
        )
    } else if str_eq(tokens[0], "STORE") && str_eq(tokens[2], "=>") {
        Some(
            match parse_register(tokens[1]) {
                Err(e) => Err(e),
                Ok(src) => match parse_word(tokens[3]) {
                    Err(e) => Err(e),
                    Ok(addr) => Ok(Instruction::Store { src, addr }),
                },
            },
        )
    } else if str_eq(tokens[0], "STOREP") && str_eq(tokens[2], "=>") {
        Some(
            match parse_register(tokens[1]) {
                Err(e) => Err(e),
                Ok(src) => match parse_register(tokens[3]) {
                    Err(e) => Err(e),
                    Ok(addr_src) => Ok(Instruction::StoreP { src, addr_src }),
                },
            },
        )
    } else if str_eq(tokens[0], "MOV") && str_eq(tokens[2], "=>") {
        Some(
            match parse_register(tokens[1]) {
                Err(e) => Err(e),
                Ok(src) => match parse_register(tokens[3]) {
                    Err(e) => Err(e),
                    Ok(dest) => Ok(Instruction::Mov { dest, src }),
                },
            },
        )
    } else if str_eq(tokens[0], "MOVC") && str_eq(tokens[2], "=>") {
        Some(
            match parse_word(tokens[1]) {
                Err(e) => Err(e),
                Ok(val) => match parse_register(tokens[3]) {
                    Err(e) => Err(e),
                    Ok(dest) => Ok(Instruction::MovC { dest, val }),
                },
            },
        )
    } else {
        None
    }
}

/// Parse a four-token jump or stack-frame-load line.
fn parse_jump4(tokens: &Vec<&str>) -> (r: Option<Result<Instruction, AsmError>>)
    requires
        tokens@.len() == 4,
    ensures
        ({
            let s = spec_parse_jump4(tokens.deep_view());
            match r {
                Some(x) => s == Some(spec_result_view(x)),
                None => s is None,
            }
        }),
{
    proof {
        assert(forall|k: int|
            0 <= k < tokens@.len() ==> tokens.deep_view()[k] == #[trigger] tokens@[k]@);
    }
    if str_eq(tokens[0], "JMP") && str_eq(tokens[2], "?") {
        Some(
            match parse_flag(tokens[1]) {
                Err(e) => Err(e),
                Ok(flag) => match parse_word(tokens[3]) {
                    Err(e) => Err(e),
                    Ok(addr) => Ok(Instruction::Jmp { flag, addr }),
                },
            },
        )
    } else if str_eq(tokens[0], "JMPP") && str_eq(tokens[2], "?") {
        Some(
            match parse_flag(tokens[1]) {
                Err(e) => Err(e),
                Ok(flag) => match parse_register(tokens[3]) {
                    Err(e) => Err(e),
                    Ok(addr_src) => Ok(Instruction::JmpP { flag, addr_src }),
                },
            },
        )
    } else if str_eq(tokens[0], "JMPR") && str_eq(tokens[2], "?") {
        Some(
            match parse_flag(tokens[1]) {
                Err(e) => Err(e),
                Ok(flag) => match parse_word(tokens[3]) {
                    Err(e) => Err(e),
                    Ok(diff) => Ok(Instruction::JmpR { flag, diff }),
                },
            },
        )
    } else if str_eq(tokens[0], "JMPRP") && str_eq(tokens[2], "?") {
        Some(
            match parse_flag(tokens[1]) {
                Err(e) => Err(e),
                Ok(flag) => match parse_register(tokens[3]) {
                    Err(e) => Err(e),
                    Ok(diff_src) => Ok(Instruction::JmpRP { flag, diff_src }),
                },
            },
        )
    } else if str_eq(tokens[0], "SLOAD") && str_eq(tokens[2], "=>") {
        Some(
            match parse_general(tokens[3]) {
                Err(e) => Err(e),
                Ok(dest) => match parse_word(tokens[1]) {
                    Err(e) => Err(e),
                    Ok(bp_diff) => Ok(Instruction::Stack(StackInstruction::Load { dest, bp_diff })),
                },
            },
        )
    } else {
        None
    }
}

/// Parse a two-token stack line.
fn parse_n2(tokens: &Vec<&str>) -> (r: Option<Result<Instruction, AsmError>>)
    requires
        tokens@.len() == 2,
    ensures
        ({
            let s = spec_parse_n2(tokens.deep_view());
            match r {
                Some(x) => s == Some(spec_result_view(x)),
                None => s is None,
            }
        }),
{
    proof {
        assert(forall|k: int|
            0 <= k < tokens@.len() ==> tokens.deep_view()[k] == #[trigger] tokens@[k]@);
    }
    if str_eq(tokens[0], "PUSH") {
        Some(
            match parse_register(tokens[1]) {
                Err(e) => Err(e),
                Ok(src) => Ok(Instruction::Stack(StackInstruction::Push { src })),
            },
        )
    } else if str_eq(tokens[0], "POP") {
        Some(
            match parse_register(tokens[1]) {
                Err(e) => Err(e),
                Ok(dest) => Ok(Instruction::Stack(StackInstruction::Pop { dest })),
            },
        )
    } else if str_eq(tokens[0], "CALL") {
        Some(
            match parse_register(tokens[1]) {
                Err(e) => Err(e),
                Ok(addr_reg) => Ok(Instruction::Stack(StackInstruction::Call { addr_reg })),
            },
        )
    } else if str_eq(tokens[0], "CALLC") {
        Some(
            match parse_word(tokens[1]) {
                Err(e) => Err(e),
                Ok(addr) => Ok(Instruction::Stack(StackInstruction::CallC { addr })),
            },
        )
    } else if str_eq(tokens[0], "CALLR") {
        Some(
            match parse_word(tokens[1]) {
                Err(e) => Err(e),
                Ok(diff) => Ok(Instruction::Stack(StackInstruction::CallR { diff })),
            },
        )
    } else if str_eq(tokens[0], "RET") {
        Some(
            match parse_register(tokens[1]) {
                Err(e) => Err(e),
                Ok(src) => Ok(Instruction::Stack(StackInstruction::Ret { src })),
            },
        )
    } else {
        None
    }
}

/// Parse a three-token port line.
fn parse_n3(tokens: &Vec<&str>) -> (r: Option<Result<Instruction, AsmError>>)
    requires
        tokens@.len() == 3,
    ensures
        ({
            let s = spec_parse_n3(tokens.deep_view());
            match r {
                Some(x) => s == Some(spec_result_view(x)),
                None => s is None,
            }
        }),
{
    proof {
        assert(forall|k: int|
            0 <= k < tokens@.len() ==> tokens.deep_view()[k] == #[trigger] tokens@[k]@);
    }
    if str_eq(tokens[0], "GPI") && str_eq(tokens[2], "<=") {
        Some(
            match parse_register(tokens[1]) {
                Err(e) => Err(e),
                Ok(dest) => Ok(Instruction::Gpi { dest }),
            },
        )
    } else if str_eq(tokens[0], "GPO") && str_eq(tokens[2], "=>") {
        Some(
            match parse_register(tokens[1]) {
                Err(e) => Err(e),
                Ok(src) => Ok(Instruction::Gpo { src }),
            },
        )
    } else {
        None
    }
}

/// Parse a six-token ALU line.
fn parse_n6(tokens: &Vec<&str>) -> (r: Option<Result<Instruction, AsmError>>)
    requires
        tokens@.len() == 6,
    ensures
        ({
            let s = spec_parse_n6(tokens.deep_view());
            match r {
                Some(x) => s == Some(spec_result_view(x)),
                None => s is None,
            }
        }),
{
    proof {
        assert(forall|k: int|
            0 <= k < tokens@.len() ==> tokens.deep_view()[k] == #[trigger] tokens@[k]@);
    }
    if str_eq(tokens[0], "ALU") && str_eq(tokens[4], "=>") {
        Some(
            match parse_alu_op(tokens[1]) {
                Err(e) => Err(e),
                Ok(op) => match parse_general(tokens[2]) {
                    Err(e) => Err(e),
                    Ok(arg1) => match parse_general(tokens[3]) {
                        Err(e) => Err(e),
                        Ok(arg2) => match parse_general(tokens[5]) {
                            Err(e) => Err(e),
                            Ok(out) => Ok(Instruction::Alu { op, arg1, arg2, out }),
                        },
                    },
                },
            },
        )
    } else {
        None
    }
}

/// Parse a one-token line.
fn parse_n1(tokens: &Vec<&str>) -> (r: Option<Result<Instruction, AsmError>>)
    requires
        tokens@.len() == 1,
    ensures
        ({
            let s = spec_parse_n1(tokens.deep_view());
            match r {
                Some(x) => s == Some(spec_result_view(x)),
                None => s is None,
            }
        }),
{
    proof {
        assert(forall|k: int|
            0 <= k < tokens@.len() ==> tokens.deep_view()[k] == #[trigger] tokens@[k]@);
    }
    if str_eq(tokens[0], "NOP") {
        Some(Ok(Instruction::Nop(NopOpcode::Nop)))
    } else if str_eq(tokens[0], "HALT") {
        Some(Ok(Instruction::Nop(NopOpcode::Halt)))
    } else {
        None
    }
}

/// Parse a tokenized line against the mnemonic table; `None` when no
/// pattern has this shape.
fn parse_tokens(tokens: &Vec<&str>) -> (r: Option<Result<Instruction, AsmError>>)
    ensures
        ({
            let s = spec_parse_tokens(tokens.deep_view());
            match r {
                Some(x) => s == Some(spec_result_view(x)),
                None => s is None,
            }
        }),
{
    if tokens.len() == 4 {
        match parse_mem4(tokens) {
            Some(r) => Some(r),
            None => parse_jump4(tokens),
        }
    } else if tokens.len() == 2 {
        parse_n2(tokens)
    } else if tokens.len() == 3 {
        parse_n3(tokens)
    } else if tokens.len() == 6 {
        parse_n6(tokens)
    } else if tokens.len() == 1 {
        parse_n1(tokens)
    } else {
        None
    }
}

/// Parse one trimmed source line.
fn parse_line(line: &str) -> (r: Result<Instruction, AsmError>)
    ensures
        spec_result_view(r) == spec_parse_line(line@),
{
    let tokens = split_str(line, ' ');
    match parse_tokens(&tokens) {
        Some(r) => r,
        None => Err(AsmError::UnknownInstruction { line: String::from_str(line) }),
    }
}

/// The result of assembly with `pre` already emitted in front of it.
pub open spec fn spec_prepend(pre: Seq<Instruction>, r: Result<Seq<Instruction>, AsmErrorV>)
    -> Result<Seq<Instruction>, AsmErrorV> {
    match r {
        Ok(s) => Ok(pre + s),
        Err(e) => Err(e),
    }
}

/// Assemble a source text into an instruction sequence, stopping at the
/// first bad line. Every instruction returned is well-formed.
pub fn assemble_program(source: &str) -> (r: Result<Vec<Instruction>, AsmError>)
    ensures
        spec_assemble_view(r) == spec_assemble(source@),
        r matches Ok(v) ==> forall|j: int| 0 <= j < v@.len() ==> v@[j].wf(),
{
    let lines = split_str(source, '\n');
    let ghost l = lines.deep_view();
    let mut out: Vec<Instruction> = Vec::new();
    let mut k: usize = 0;
    proof {
        assert(forall|j: int| 0 <= j < lines@.len() ==> l[j] == #[trigger] lines@[j]@);
        assert(l.subrange(0, l.len() as int) =~= l);
        match spec_assemble_lines(l) {
            Ok(s) => {
                assert(out@ + s =~= s);
            },
            Err(_) => {},
        }
    }
    while k < lines.len()
        invariant
            k <= lines.len(),
            lines.deep_view() == l,
            lines@.len() == l.len(),
            forall|j: int| 0 <= j < lines@.len() ==> l[j] == #[trigger] lines@[j]@,
            spec_assemble(source@) == spec_assemble_lines(l),
            forall|j: int| 0 <= j < out@.len() ==> out@[j].wf(),
            spec_assemble_lines(l) == spec_prepend(
                out@,
                spec_assemble_lines(l.subrange(k as int, l.len() as int)),
            ),
        decreases lines.len() - k,
    {
        let line = lines[k];
        let t = trim_str(line);
        let ghost sub = l.subrange(k as int, l.len() as int);
        proof {
            assert(sub[0] == l[k as int]);
            assert(sub.drop_first() =~= l.subrange(k as int + 1, l.len() as int));
        }
        let tn = t.unicode_len();
        let skip = if tn == 0 {
            true
        } else {
            t.get_char(0) == '#'
        };
        if skip {
        } else {
            match parse_line(t) {
                Err(e) => {
                    proof {
                        assert(spec_assemble_lines(sub) == Err::<Seq<Instruction>, AsmErrorV>(e@));
                    }
                    return Err(e);
                },
                Ok(ins) => {
                    proof {
                        lemma_parse_line_wf(t@);
                        let rest = spec_assemble_lines(
                            l.subrange(k as int + 1, l.len() as int),
                        );
                        assert(spec_assemble_lines(sub) == spec_prepend(seq![ins], rest));
                        lemma_prepend_assoc(out@, seq![ins], rest);
                        assert(out@ + seq![ins] =~= out@.push(ins));
                    }
                    out.push(ins);
                },
            }
        }
        k = k + 1;
    }
    proof {
        assert(l.subrange(k as int, l.len() as int) =~= Seq::<Seq<char>>::empty());
        assert(spec_assemble_lines(Seq::<Seq<char>>::empty()) == Ok::<Seq<Instruction>, AsmErrorV>(
            Seq::<Instruction>::empty(),
        ));
        assert(out@ + Seq::<Instruction>::empty() =~= out@);
    }
    Ok(out)
}

/// Prepending in two stages is prepending the concatenation.
proof fn lemma_prepend_assoc(
    a: Seq<Instruction>,
    b: Seq<Instruction>,
    r: Result<Seq<Instruction>, AsmErrorV>,
)
    ensures
        spec_prepend(a, spec_prepend(b, r)) == spec_prepend(a + b, r),
{
    match r {
        Ok(s) => {
            assert(a + (b + s) =~= (a + b) + s);
        },
        Err(_) => {},
    }
}

/// The flat two-byte wire image of an instruction sequence.
pub open spec fn spec_generate(p: Seq<Instruction>) -> Seq<Word> {
    Seq::new(
        2 * p.len(),
        |j: int|
            if j % 2 == 0 {
                crate::isa::spec_encode(p[j / 2]).0
            } else {
                crate::isa::spec_encode(p[j / 2]).1
            },
    )
}

/// Encode a well-formed instruction sequence into its wire image: two
/// bytes per instruction, in order.
pub fn generate_code(program: &Vec<Instruction>) -> (r: Vec<Word>)
    requires
        forall|j: int| 0 <= j < program@.len() ==> (#[trigger] program@[j]).wf(),
    ensures
        r@ == spec_generate(program@),
{
    let mut result: Vec<Word> = Vec::new();
    let mut k: usize = 0;
    while k < program.len()
        invariant
            k <= program@.len(),
            result@.len() == 2 * k,
            forall|j: int| 0 <= j < program@.len() ==> (#[trigger] program@[j]).wf(),
            forall|j: int| 0 <= j < result@.len() ==> result@[j] == spec_generate(program@)[j],
        decreases program@.len() - k,
    {
        let ins = program[k];
        let (b1, b2) = ins.encode();
        result.push(b1);
        result.push(b2);
        proof {
            assert((2 * k as int) % 2 == 0 && (2 * k as int) / 2 == k as int);
            assert((2 * k as int + 1) % 2 == 1 && (2 * k as int + 1) / 2 == k as int);
        }
        k = k + 1;
    }
    proof {
        assert(result@ =~= spec_generate(program@));
    }
    result
}

/// A machine loaded with a freshly assembled program: the wire image as
/// the program, zeroed data memory, and everything else cleared.
pub open spec fn spec_loaded_machine(p: Seq<Instruction>) -> crate::machine::MachineV {
    crate::machine::MachineV {
        eip: 0,
        program: spec_pad256(spec_generate(p)),
        memory: Seq::new(256, |i: int| 0u8),
        flags: AluFlags::spec_clear(),
        registers: Registers::spec_zero(),
        reg_i: 0,
        reg_o: 0,
    }
}

/// Assemble a source text and load it into a fresh machine with zeroed
/// data memory.
pub fn from_source(source: &str) -> (r: Result<LegComputer, AsmError>)
    ensures
        (r is Ok) == (spec_assemble(source@) is Ok),
        r matches Err(e) ==> spec_assemble(source@) == Err::<Seq<Instruction>, AsmErrorV>(e@),
        r matches Ok(c) ==> spec_assemble(source@) matches Ok(p) && c@ == spec_loaded_machine(p)
            && c@.wf(),
{
    let instructions = match assemble_program(source) {
        Err(e) => {
            return Err(e);
        },
        Ok(v) => v,
    };
    let code = generate_code(&instructions);
    let memory: Vec<Word> = vec![0u8; 256];
    let machine = LegComputer::new(code, memory);
    proof {
        assert(spec_pad256(memory@) =~= Seq::new(256, |i: int| 0u8));
        assert(machine@ =~= spec_loaded_machine(spec_assemble(source@)->Ok_0));
    }
    Ok(machine)
}

impl core::str::FromStr for LegComputer {
    type Err = AsmError;

    /// Assemble a source text and load it, as `from_source` does.
    fn from_str(source: &str) -> (r: Result<LegComputer, AsmError>) {
        from_source(source)
    }
}

} // verus!
