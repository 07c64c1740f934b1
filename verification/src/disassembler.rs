//! The disassembler: the canonical textual form of each instruction, and
//! the proof that parsing a disassembled line yields the instruction back.

use vstd::prelude::*;

use vstd::string::StringExecFns;

use crate::assembler::spec_parse_line;
use crate::assembler::spec_parse_register;
use crate::assembler::spec_parse_flag;
use crate::assembler::spec_parse_alu_op;
use crate::assembler::spec_parse_general;
use crate::assembler::spec_parse_word;
use crate::assembler::AsmErrorV;
use crate::isa::AluFlagRef;
use crate::isa::AluOpcode;
use crate::isa::Instruction;
use crate::isa::NopOpcode;
use crate::isa::RegisterRef;
use crate::isa::StackInstruction;
use crate::isa::Word;
use crate::text::is_space_char;
use crate::text::split_char;

verus! {

/// The canonical name of a register.
pub open spec fn spec_reg_name(r: RegisterRef) -> Seq<char> {
    match r {
        RegisterRef::A => "A"@,
        RegisterRef::B => "B"@,
        RegisterRef::C => "C"@,
        RegisterRef::D => "D"@,
        RegisterRef::FL => "FL"@,
        RegisterRef::ST => "ST"@,
        RegisterRef::BP => "BP"@,
        RegisterRef::IP => "IP"@,
    }
}

/// The canonical name of a jump predicate.
pub open spec fn spec_flag_name(f: AluFlagRef) -> Seq<char> {
    match f {
        AluFlagRef::EqZero => "Z"@,
        AluFlagRef::OverflowUnsigned => "Ou"@,
        AluFlagRef::OverflowSigned => "Os"@,
        AluFlagRef::Equal => "EQ"@,
        AluFlagRef::GreaterThan => "GT"@,
        AluFlagRef::GreaterThanSigned => "GTs"@,
        AluFlagRef::GreaterOrEqual => "GE"@,
        AluFlagRef::GreaterOrEqualSigned => "GEs"@,
        AluFlagRef::NotEqual => "NE"@,
        AluFlagRef::LessThan => "LT"@,
        AluFlagRef::LessThanSigned => "LTs"@,
        AluFlagRef::LessOrEqual => "LE"@,
        AluFlagRef::LessOrEqualSigned => "LEs"@,
        AluFlagRef::False => "F"@,
        AluFlagRef::True => "T"@,
    }
}

/// The canonical name of an ALU operation.
pub open spec fn spec_op_name(op: AluOpcode) -> Seq<char> {
    match op {
        AluOpcode::Add => "ADD"@,
        AluOpcode::AddCarry => "ADDC"@,
        AluOpcode::Incr => "INCR"@,
        AluOpcode::Decr => "DECR"@,
        AluOpcode::Xor => "XOR"@,
        AluOpcode::Neg => "NEG"@,
        AluOpcode::Sub => "SUB"@,
        AluOpcode::Or => "OR"@,
        AluOpcode::And => "AND"@,
        AluOpcode::Nand => "NAND"@,
        AluOpcode::Nor => "NOR"@,
        AluOpcode::ShiftL => "SHIFTL"@,
        AluOpcode::ShiftR => "SHIFTR"@,
        AluOpcode::Echo => "ECHO"@,
    }
}

/// The character of one decimal digit.
pub open spec fn digit_char(d: Word) -> char {
    if d == 0 {
        '0'
    } else if d == 1 {
        '1'
    } else if d == 2 {
        '2'
    } else if d == 3 {
        '3'
    } else if d == 4 {
        '4'
    } else if d == 5 {
        '5'
    } else if d == 6 {
        '6'
    } else if d == 7 {
        '7'
    } else if d == 8 {
        '8'
    } else {
        '9'
    }
}

/// The canonical decimal text of a byte: one to three digits, no sign.
pub open spec fn spec_word_text(v: Word) -> Seq<char> {
    if v < 10 {
        seq![digit_char(v)]
    } else if v < 100 {
        seq![digit_char(v / 10), digit_char(v % 10)]
    } else {
        seq![digit_char(v / 100), digit_char((v / 10) % 10), digit_char(v % 10)]
    }
}

/// One space, as a character sequence.
pub open spec fn sp() -> Seq<char> {
    seq![' ']
}

/// The canonical source line of an instruction: the form the assembler's
/// mnemonic table documents, with single spaces between tokens.
pub open spec fn spec_render_line(i: Instruction) -> Seq<char> {
    match i {
        Instruction::Load { dest, addr } => "LOAD"@ + sp() + spec_word_text(addr) + sp() + "=>"@
            + sp() + spec_reg_name(dest),
        Instruction::LoadP { dest, addr_src } => "LOADP"@ + sp() + spec_reg_name(addr_src) + sp()
            + "=>"@ + sp() + spec_reg_name(dest),
        Instruction::Store { src, addr } => "STORE"@ + sp() + spec_reg_name(src) + sp() + "=>"@
            + sp() + spec_word_text(addr),
        Instruction::StoreP { src, addr_src } => "STOREP"@ + sp() + spec_reg_name(src) + sp()
            + "=>"@ + sp() + spec_reg_name(addr_src),
        Instruction::Mov { dest, src } => "MOV"@ + sp() + spec_reg_name(src) + sp() + "=>"@ + sp()
            + spec_reg_name(dest),
        Instruction::MovC { dest, val } => "MOVC"@ + sp() + spec_word_text(val) + sp() + "=>"@
            + sp() + spec_reg_name(dest),
        Instruction::Jmp { flag, addr } => "JMP"@ + sp() + spec_flag_name(flag) + sp() + "?"@
            + sp() + spec_word_text(addr),
        Instruction::JmpP { flag, addr_src } => "JMPP"@ + sp() + spec_flag_name(flag) + sp() + "?"@
            + sp() + spec_reg_name(addr_src),
        Instruction::JmpR { flag, diff } => "JMPR"@ + sp() + spec_flag_name(flag) + sp() + "?"@
            + sp() + spec_word_text(diff),
        Instruction::JmpRP { flag, diff_src } => "JMPRP"@ + sp() + spec_flag_name(flag) + sp()
            + "?"@ + sp() + spec_reg_name(diff_src),
        Instruction::Stack(s) => match s {
            StackInstruction::Push { src } => "PUSH"@ + sp() + spec_reg_name(src),
            StackInstruction::Pop { dest } => "POP"@ + sp() + spec_reg_name(dest),
            StackInstruction::Call { addr_reg } => "CALL"@ + sp() + spec_reg_name(addr_reg),
            StackInstruction::CallC { addr } => "CALLC"@ + sp() + spec_word_text(addr),
            StackInstruction::CallR { diff } => "CALLR"@ + sp() + spec_word_text(diff),
            StackInstruction::Ret { src } => "RET"@ + sp() + spec_reg_name(src),
            StackInstruction::Load { dest, bp_diff } => "SLOAD"@ + sp() + spec_word_text(bp_diff)
                + sp() + "=>"@ + sp() + spec_reg_name(dest),
        },
        Instruction::Gpi { dest } => "GPI"@ + sp() + spec_reg_name(dest) + sp() + "<="@,
        Instruction::Gpo { src } => "GPO"@ + sp() + spec_reg_name(src) + sp() + "=>"@,
        Instruction::Alu { op, arg1, arg2, out } => "ALU"@ + sp() + spec_op_name(op) + sp()
            + spec_reg_name(arg1) + sp() + spec_reg_name(arg2) + sp() + "=>"@ + sp()
            + spec_reg_name(out),
        Instruction::Nop(NopOpcode::Nop) => "NOP"@,
        Instruction::Nop(NopOpcode::Halt) => "HALT"@,
    }
}

/// The canonical text of a whole program: one line per instruction, each
/// ended by a newline.
pub open spec fn spec_render_program(p: Seq<Instruction>) -> Seq<char>
    decreases p.len(),
{
    if p.len() == 0 {
        Seq::<char>::empty()
    } else {
        spec_render_line(p[0]) + seq!['\n'] + spec_render_program(p.drop_first())
    }
}

/// Append one space.
fn append_space(s: &mut String)
    ensures
        final(s)@ == old(s)@ + sp(),
{
    s.append(" ");
    proof {
        reveal_strlit(" ");
        assert(old(s)@ + " "@ =~= old(s)@ + sp());
    }
}

/// Append one decimal digit character.
fn append_digit(s: &mut String, d: Word)
    requires
        d <= 9,
    ensures
        final(s)@ == old(s)@ + seq![digit_char(d)],
{
    match d {
        0 => {
            s.append("0");
            proof {
                reveal_strlit("0");
                assert(old(s)@ + "0"@ =~= old(s)@ + seq![digit_char(0)]);
            }
        },
        1 => {
            s.append("1");
            proof {
                reveal_strlit("1");
                assert(old(s)@ + "1"@ =~= old(s)@ + seq![digit_char(1)]);
            }
        },
        2 => {
            s.append("2");
            proof {
                reveal_strlit("2");
                assert(old(s)@ + "2"@ =~= old(s)@ + seq![digit_char(2)]);
            }
        },
        3 => {
            s.append("3");
            proof {
                reveal_strlit("3");
                assert(old(s)@ + "3"@ =~= old(s)@ + seq![digit_char(3)]);
            }
        },
        4 => {
            s.append("4");
            proof {
                reveal_strlit("4");
                assert(old(s)@ + "4"@ =~= old(s)@ + seq![digit_char(4)]);
            }
        },
        5 => {
            s.append("5");
            proof {
                reveal_strlit("5");
                assert(old(s)@ + "5"@ =~= old(s)@ + seq![digit_char(5)]);
            }
        },
        6 => {
            s.append("6");
            proof {
                reveal_strlit("6");
                assert(old(s)@ + "6"@ =~= old(s)@ + seq![digit_char(6)]);
            }
        },
        7 => {
            s.append("7");
            proof {
                reveal_strlit("7");
                assert(old(s)@ + "7"@ =~= old(s)@ + seq![digit_char(7)]);
            }
        },
        8 => {
            s.append("8");
            proof {
                reveal_strlit("8");
                assert(old(s)@ + "8"@ =~= old(s)@ + seq![digit_char(8)]);
            }
        },
        _ => {
            s.append("9");
            proof {
                reveal_strlit("9");
                assert(old(s)@ + "9"@ =~= old(s)@ + seq![digit_char(9)]);
            }
        },
    }
}

/// Append the canonical decimal text of a byte.
fn append_word_text(s: &mut String, v: Word)
    ensures
        final(s)@ == old(s)@ + spec_word_text(v),
{
    if v < 10 {
        append_digit(s, v);
    } else if v < 100 {
        append_digit(s, v / 10);
        append_digit(s, v % 10);
        proof {
            assert(old(s)@ + seq![digit_char(v / 10)] + seq![digit_char(v % 10)] =~= old(s)@
                + spec_word_text(v));
        }
    } else {
        append_digit(s, v / 100);
        append_digit(s, (v / 10) % 10);
        append_digit(s, v % 10);
        proof {
            assert(old(s)@ + seq![digit_char(v / 100)] + seq![digit_char((v / 10) % 10)] + seq![
                digit_char(v % 10),
            ] =~= old(s)@ + spec_word_text(v));
        }
    }
}

/// Append the canonical name of a register.
fn append_reg(s: &mut String, r: RegisterRef)
    ensures
        final(s)@ == old(s)@ + spec_reg_name(r),
{
    match r {
        RegisterRef::A => s.append("A"),
        RegisterRef::B => s.append("B"),
        RegisterRef::C => s.append("C"),
        RegisterRef::D => s.append("D"),
        RegisterRef::FL => s.append("FL"),
        RegisterRef::ST => s.append("ST"),
        RegisterRef::BP => s.append("BP"),
        RegisterRef::IP => s.append("IP"),
    }
}

/// Append the canonical name of a jump predicate.
fn append_flag(s: &mut String, f: AluFlagRef)
    ensures
        final(s)@ == old(s)@ + spec_flag_name(f),
{
    match f {
        AluFlagRef::EqZero => s.append("Z"),
        AluFlagRef::OverflowUnsigned => s.append("Ou"),
        AluFlagRef::OverflowSigned => s.append("Os"),
        AluFlagRef::Equal => s.append("EQ"),
        AluFlagRef::GreaterThan => s.append("GT"),
        AluFlagRef::GreaterThanSigned => s.append("GTs"),
        AluFlagRef::GreaterOrEqual => s.append("GE"),
        AluFlagRef::GreaterOrEqualSigned => s.append("GEs"),
        AluFlagRef::NotEqual => s.append("NE"),
        AluFlagRef::LessThan => s.append("LT"),
        AluFlagRef::LessThanSigned => s.append("LTs"),
        AluFlagRef::LessOrEqual => s.append("LE"),
        AluFlagRef::LessOrEqualSigned => s.append("LEs"),
        AluFlagRef::False => s.append("F"),
        AluFlagRef::True => s.append("T"),
    }
}

/// Append the canonical name of an ALU operation.
fn append_op(s: &mut String, op: AluOpcode)
    ensures
        final(s)@ == old(s)@ + spec_op_name(op),
{
    match op {
        AluOpcode::Add => s.append("ADD"),
        AluOpcode::AddCarry => s.append("ADDC"),
        AluOpcode::Incr => s.append("INCR"),
        AluOpcode::Decr => s.append("DECR"),
        AluOpcode::Xor => s.append("XOR"),
        AluOpcode::Neg => s.append("NEG"),
        AluOpcode::Sub => s.append("SUB"),
        AluOpcode::Or => s.append("OR"),
        AluOpcode::And => s.append("AND"),
        AluOpcode::Nand => s.append("NAND"),
        AluOpcode::Nor => s.append("NOR"),
        AluOpcode::ShiftL => s.append("SHIFTL"),
        AluOpcode::ShiftR => s.append("SHIFTR"),
        AluOpcode::Echo => s.append("ECHO"),
    }
}

/// Append the canonical source line of one instruction.
#[verifier::rlimit(100)]
#[verifier::spinoff_prover]
fn append_line(s: &mut String, i: &Instruction)
    ensures
        final(s)@ == old(s)@ + spec_render_line(*i),
{
    match *i {
        Instruction::Load { dest, addr } => {
            s.append("LOAD");
            append_space(s);
            append_word_text(s, addr);
            append_space(s);
            s.append("=>");
            append_space(s);
            append_reg(s, dest);
        },
        Instruction::LoadP { dest, addr_src } => {
            s.append("LOADP");
            append_space(s);
            append_reg(s, addr_src);
            append_space(s);
            s.append("=>");
            append_space(s);
            append_reg(s, dest);
        },
        Instruction::Store { src, addr } => {
            s.append("STORE");
            append_space(s);
            append_reg(s, src);
            append_space(s);
            s.append("=>");
            append_space(s);
            append_word_text(s, addr);
        },
        Instruction::StoreP { src, addr_src } => {
            s.append("STOREP");
            append_space(s);
            append_reg(s, src);
            append_space(s);
            s.append("=>");
            append_space(s);
            append_reg(s, addr_src);
        },
        Instruction::Mov { dest, src } => {
            s.append("MOV");
            append_space(s);
            append_reg(s, src);
            append_space(s);
            s.append("=>");
            append_space(s);
            append_reg(s, dest);
        },
        Instruction::MovC { dest, val } => {
            s.append("MOVC");
            append_space(s);
            append_word_text(s, val);
            append_space(s);
            s.append("=>");
            append_space(s);
            append_reg(s, dest);
        },
        Instruction::Jmp { flag, addr } => {
            s.append("JMP");
            append_space(s);
            append_flag(s, flag);
            append_space(s);
            s.append("?");
            append_space(s);
            append_word_text(s, addr);
        },
        Instruction::JmpP { flag, addr_src } => {
            s.append("JMPP");
            append_space(s);
            append_flag(s, flag);
            append_space(s);
            s.append("?");
            append_space(s);
            append_reg(s, addr_src);
        },
        Instruction::JmpR { flag, diff } => {
            s.append("JMPR");
            append_space(s);
            append_flag(s, flag);
            append_space(s);
            s.append("?");
            append_space(s);
            append_word_text(s, diff);
        },
        Instruction::JmpRP { flag, diff_src } => {
            s.append("JMPRP");
            append_space(s);
            append_flag(s, flag);
            append_space(s);
            s.append("?");
            append_space(s);
            append_reg(s, diff_src);
        },
        Instruction::Stack(stack_ins) => match stack_ins {
            StackInstruction::Push { src } => {
                s.append("PUSH");
                append_space(s);
                append_reg(s, src);
            },
            StackInstruction::Pop { dest } => {
                s.append("POP");
                append_space(s);
                append_reg(s, dest);
            },
            StackInstruction::Call { addr_reg } => {
                s.append("CALL");
                append_space(s);
                append_reg(s, addr_reg);
            },
            StackInstruction::CallC { addr } => {
                s.append("CALLC");
                append_space(s);
                append_word_text(s, addr);
            },
            StackInstruction::CallR { diff } => {
                s.append("CALLR");
                append_space(s);
                append_word_text(s, diff);
            },
            StackInstruction::Ret { src } => {
                s.append("RET");
                append_space(s);
                append_reg(s, src);
            },
            StackInstruction::Load { dest, bp_diff } => {
                s.append("SLOAD");
                append_space(s);
                append_word_text(s, bp_diff);
                append_space(s);
                s.append("=>");
                append_space(s);
                append_reg(s, dest);
            },
        },
        Instruction::Gpi { dest } => {
            s.append("GPI");
            append_space(s);
            append_reg(s, dest);
            append_space(s);
            s.append("<=");
        },
        Instruction::Gpo { src } => {
            s.append("GPO");
            append_space(s);
            append_reg(s, src);
            append_space(s);
            s.append("=>");
        },
        Instruction::Alu { op, arg1, arg2, out } => {
            s.append("ALU");
            append_space(s);
            append_op(s, op);
            append_space(s);
            append_reg(s, arg1);
            append_space(s);
            append_reg(s, arg2);
            append_space(s);
            s.append("=>");
            append_space(s);
            append_reg(s, out);
        },
        Instruction::Nop(NopOpcode::Nop) => {
            s.append("NOP");
        },
        Instruction::Nop(NopOpcode::Halt) => {
            s.append("HALT");
        },
    }
}

/// The canonical source line of one instruction.
pub fn disassemble_instruction(i: &Instruction) -> (r: String)
    ensures
        r@ == spec_render_line(*i),
{
    let mut s = String::new();
    append_line(&mut s, i);
    proof {
        assert(Seq::<char>::empty() + spec_render_line(*i) =~= spec_render_line(*i));
    }
    s
}

/// The canonical text of a whole program: one line per instruction.
pub fn disassemble(program: &Vec<Instruction>) -> (r: String)
    ensures
        r@ == spec_render_program(program@),
{
    let mut s = String::new();
    let mut k: usize = 0;
    proof {
        assert(program@.subrange(0, program@.len() as int) =~= program@);
        assert(Seq::<char>::empty() + spec_render_program(program@) =~= spec_render_program(
            program@,
        ));
    }
    while k < program.len()
        invariant
            k <= program@.len(),
            spec_render_program(program@) == s@ + spec_render_program(
                program@.subrange(k as int, program@.len() as int),
            ),
        decreases program@.len() - k,
    {
        let ghost sub = program@.subrange(k as int, program@.len() as int);
        let ghost s0 = s@;
        proof {
            assert(sub[0] == program@[k as int]);
            assert(sub.drop_first() =~= program@.subrange(k as int + 1, program@.len() as int));
        }
        append_line(&mut s, &program[k]);
        s.append("\n");
        proof {
            reveal_strlit("\n");
            let line = spec_render_line(program@[k as int]);
            let rest = spec_render_program(
                program@.subrange(k as int + 1, program@.len() as int),
            );
            assert(spec_render_program(sub) == line + seq!['\n'] + rest);
            assert("\n"@ =~= seq!['\n']);
            assert(s0 + (line + seq!['\n'] + rest) =~= (s0 + line + "\n"@) + rest);
        }
        k = k + 1;
    }
    proof {
        assert(program@.subrange(k as int, program@.len() as int) =~= Seq::<Instruction>::empty());
        assert(s@ + Seq::<char>::empty() =~= s@);
    }
    s
}

/// No character of the token is a space, so tokenization keeps it whole.
pub open spec fn no_space(s: Seq<char>) -> bool {
    forall|k: int| 0 <= k < s.len() ==> s[k] != ' '
}

/// A token of a mnemonic table entry: no whitespace and no comment
/// character anywhere in it.
pub open spec fn clean_token(s: Seq<char>) -> bool {
    forall|k: int| 0 <= k < s.len() ==> (!is_space_char(s[k]) && s[k] != '#')
}

/// No character of a line is a newline, so splitting a source on
/// newlines keeps it whole.
pub open spec fn line_clean(s: Seq<char>) -> bool {
    forall|k: int| 0 <= k < s.len() ==> s[k] != '\n'
}

/// A short token whose characters are all clean is a clean token.
proof fn lemma_no_space_token(s: Seq<char>)
    requires
        s.len() <= 6,
        s.len() > 0 ==> !is_space_char(s[0]) && s[0] != '#',
        s.len() > 1 ==> !is_space_char(s[1]) && s[1] != '#',
        s.len() > 2 ==> !is_space_char(s[2]) && s[2] != '#',
        s.len() > 3 ==> !is_space_char(s[3]) && s[3] != '#',
        s.len() > 4 ==> !is_space_char(s[4]) && s[4] != '#',
        s.len() > 5 ==> !is_space_char(s[5]) && s[5] != '#',
    ensures
        no_space(s),
        clean_token(s),
{
    assert forall|k: int| 0 <= k < s.len() implies s[k] != ' ' && !is_space_char(s[k]) && s[k]
        != '#' by {
        if k == 0 {
        } else if k == 1 {
        } else if k == 2 {
        } else if k == 3 {
        } else if k == 4 {
        } else {
            assert(k == 5);
        }
    }
}

/// Splitting a line that starts with a space-free token and a space
/// yields that token and then the split of the rest.
proof fn lemma_split_prefix(t0: Seq<char>, rest: Seq<char>)
    requires
        no_space(t0),
    ensures
        split_char(t0 + sp() + rest, ' ') == seq![t0] + split_char(rest, ' '),
{
    let s = t0 + sp() + rest;
    assert(s[t0.len() as int] == ' ');
    crate::text::lemma_first_sep_at(s, ' ', t0.len() as int);
    assert(s.subrange(0, t0.len() as int) =~= t0);
    assert(s.subrange(t0.len() as int + 1, s.len() as int) =~= rest);
}

/// Splitting a canonical two-token line.
proof fn lemma_split2(a: Seq<char>, b: Seq<char>)
    requires
        no_space(a),
        no_space(b),
    ensures
        split_char(a + sp() + b, ' ') == seq![a, b],
{
    lemma_split_prefix(a, b);
    crate::text::lemma_split_none(b, ' ');
    assert(seq![a] + seq![b] =~= seq![a, b]);
}

/// Splitting a canonical three-token line.
proof fn lemma_split3(a: Seq<char>, b: Seq<char>, c: Seq<char>)
    requires
        no_space(a),
        no_space(b),
        no_space(c),
    ensures
        split_char(a + sp() + b + sp() + c, ' ') == seq![a, b, c],
{
    let rest = b + sp() + c;
    assert(a + sp() + b + sp() + c =~= a + sp() + rest);
    lemma_split_prefix(a, rest);
    lemma_split2(b, c);
    assert(seq![a] + seq![b, c] =~= seq![a, b, c]);
}

/// Splitting a canonical four-token line.
proof fn lemma_split4(a: Seq<char>, b: Seq<char>, c: Seq<char>, d: Seq<char>)
    requires
        no_space(a),
        no_space(b),
        no_space(c),
        no_space(d),
    ensures
        split_char(a + sp() + b + sp() + c + sp() + d, ' ') == seq![a, b, c, d],
{
    let rest = b + sp() + c + sp() + d;
    assert(a + sp() + b + sp() + c + sp() + d =~= a + sp() + rest);
    lemma_split_prefix(a, rest);
    lemma_split3(b, c, d);
    assert(seq![a] + seq![b, c, d] =~= seq![a, b, c, d]);
}

/// Splitting a canonical five-token line.
proof fn lemma_split5(a: Seq<char>, b: Seq<char>, c: Seq<char>, d: Seq<char>, e: Seq<char>)
    requires
        no_space(a),
        no_space(b),
        no_space(c),
        no_space(d),
        no_space(e),
    ensures
        split_char(a + sp() + b + sp() + c + sp() + d + sp() + e, ' ') == seq![a, b, c, d, e],
{
    let rest = b + sp() + c + sp() + d + sp() + e;
    assert(a + sp() + b + sp() + c + sp() + d + sp() + e =~= a + sp() + rest);
    lemma_split_prefix(a, rest);
    lemma_split4(b, c, d, e);
    assert(seq![a] + seq![b, c, d, e] =~= seq![a, b, c, d, e]);
}

/// Splitting a canonical six-token line.
proof fn lemma_split6(
    a: Seq<char>,
    b: Seq<char>,
    c: Seq<char>,
    d: Seq<char>,
    e: Seq<char>,
    f: Seq<char>,
)
    requires
        no_space(a),
        no_space(b),
        no_space(c),
        no_space(d),
        no_space(e),
        no_space(f),
    ensures
        split_char(a + sp() + b + sp() + c + sp() + d + sp() + e + sp() + f, ' ') == seq![
            a,
            b,
            c,
            d,
            e,
            f,
        ],
{
    let rest = b + sp() + c + sp() + d + sp() + e + sp() + f;
    assert(a + sp() + b + sp() + c + sp() + d + sp() + e + sp() + f =~= a + sp() + rest);
    lemma_split_prefix(a, rest);
    lemma_split5(b, c, d, e, f);
    assert(seq![a] + seq![b, c, d, e, f] =~= seq![a, b, c, d, e, f]);
}

/// Each digit character is a digit with its own value, and is neither a
/// space nor a sign.
proof fn lemma_digit(d: Word)
    requires
        d <= 9,
    ensures
        crate::assembler::is_digit(digit_char(d)),
        crate::assembler::digit_val(digit_char(d)) == d,
        !is_space_char(digit_char(d)),
        digit_char(d) != '#',
        digit_char(d) != '-',
        digit_char(d) != '+',
{
}

/// The canonical decimal text of a byte parses back to that byte, and is
/// a space-free token.
proof fn lemma_word_text_props(v: Word)
    ensures
        no_space(spec_word_text(v)),
        clean_token(spec_word_text(v)),
        spec_word_text(v).len() >= 1,
        spec_parse_word(spec_word_text(v)) == Ok::<Word, AsmErrorV>(v),
{
    let t = spec_word_text(v);
    reveal_with_fuel(crate::assembler::digits_val, 5);
    vstd::arithmetic::div_mod::lemma_small_mod(v as nat, 256);
    if v < 10 {
        lemma_digit(v);
        assert(t.drop_last() =~= Seq::<char>::empty());
        assert(crate::assembler::digits_val(t) == v);
        assert forall|k: int| 0 <= k < t.len() implies t[k] != ' ' && !is_space_char(t[k]) && t[k]
            != '#' by {
            assert(k == 0);
        }
        assert forall|k: int| 0 <= k < t.len() implies crate::assembler::is_digit(t[k]) by {
            assert(k == 0);
        }
        assert(crate::assembler::spec_parse_int(t) == Option::Some(v as int));
    } else if v < 100 {
        lemma_digit(v / 10);
        lemma_digit(v % 10);
        vstd::arithmetic::div_mod::lemma_fundamental_div_mod(v as int, 10);
        assert(t.drop_last() =~= seq![digit_char(v / 10)]);
        assert(seq![digit_char(v / 10)].drop_last() =~= Seq::<char>::empty());
        assert(crate::assembler::digits_val(t) == v);
        assert forall|k: int| 0 <= k < t.len() implies t[k] != ' ' && !is_space_char(t[k]) && t[k]
            != '#' by {
            if k == 0 {
            } else {
                assert(k == 1);
            }
        }
        assert forall|k: int| 0 <= k < t.len() implies crate::assembler::is_digit(t[k]) by {
            if k == 0 {
            } else {
                assert(k == 1);
            }
        }
        assert(crate::assembler::spec_parse_int(t) == Option::Some(v as int));
    } else {
        lemma_digit(v / 100);
        lemma_digit((v / 10) % 10);
        lemma_digit(v % 10);
        vstd::arithmetic::div_mod::lemma_fundamental_div_mod(v as int, 10);
        vstd::arithmetic::div_mod::lemma_fundamental_div_mod((v / 10) as int, 10);
        vstd::arithmetic::div_mod::lemma_div_denominator(v as int, 10, 10);
        assert((v / 10) / 10 == v / 100);
        assert(t.drop_last() =~= seq![digit_char(v / 100), digit_char((v / 10) % 10)]);
        assert(seq![digit_char(v / 100), digit_char((v / 10) % 10)].drop_last() =~= seq![
            digit_char(v / 100),
        ]);
        assert(seq![digit_char(v / 100)].drop_last() =~= Seq::<char>::empty());
        assert(crate::assembler::digits_val(seq![digit_char(v / 100)]) == v / 100);
        assert(crate::assembler::digits_val(
            seq![digit_char(v / 100), digit_char((v / 10) % 10)],
        ) == (v / 100) * 10 + (v / 10) % 10);
        assert((v / 100) * 10 + (v / 10) % 10 == v / 10);
        assert(crate::assembler::digits_val(t) == (v / 10) * 10 + (v % 10));
        assert(crate::assembler::digits_val(t) == v);
        assert forall|k: int| 0 <= k < t.len() implies t[k] != ' ' && !is_space_char(t[k]) && t[k]
            != '#' by {
            if k == 0 {
            } else if k == 1 {
            } else {
                assert(k == 2);
            }
        }
        assert forall|k: int| 0 <= k < t.len() implies crate::assembler::is_digit(t[k]) by {
            if k == 0 {
            } else if k == 1 {
            } else {
                assert(k == 2);
            }
        }
        assert(crate::assembler::spec_parse_int(t) == Option::Some(v as int));
    }
}

/// The canonical register name parses back to the register, and is a
/// space-free token.
proof fn lemma_reg_name_props(r: RegisterRef)
    ensures
        no_space(spec_reg_name(r)),
        clean_token(spec_reg_name(r)),
        spec_reg_name(r).len() >= 1,
        spec_parse_register(spec_reg_name(r)) == Ok::<RegisterRef, AsmErrorV>(r),
        r.is_general() ==> spec_parse_general(spec_reg_name(r)) == Ok::<RegisterRef, AsmErrorV>(r),
{
    reveal_strlit("A");
    reveal_strlit("B");
    reveal_strlit("C");
    reveal_strlit("D");
    reveal_strlit("FL");
    reveal_strlit("ST");
    reveal_strlit("BP");
    reveal_strlit("IP");
    assert("A"@.len() == 1 && "A"@[0] == 'A');
    assert("B"@.len() == 1 && "B"@[0] == 'B');
    assert("C"@.len() == 1 && "C"@[0] == 'C');
    assert("D"@.len() == 1 && "D"@[0] == 'D');
    assert("FL"@.len() == 2 && "FL"@[0] == 'F' && "FL"@[1] == 'L');
    assert("ST"@.len() == 2 && "ST"@[0] == 'S' && "ST"@[1] == 'T');
    assert("BP"@.len() == 2 && "BP"@[0] == 'B' && "BP"@[1] == 'P');
    assert("IP"@.len() == 2 && "IP"@[0] == 'I' && "IP"@[1] == 'P');
    lemma_no_space_token(spec_reg_name(r));
}

/// The canonical flag name parses back to the flag, and is a space-free
/// token.
proof fn lemma_flag_name_props(f: AluFlagRef)
    ensures
        no_space(spec_flag_name(f)),
        clean_token(spec_flag_name(f)),
        spec_flag_name(f).len() >= 1,
        spec_parse_flag(spec_flag_name(f)) == Ok::<AluFlagRef, AsmErrorV>(f),
{
    reveal_strlit("Z");
    reveal_strlit("Ou");
    reveal_strlit("Os");
    reveal_strlit("EQ");
    reveal_strlit("GT");
    reveal_strlit("GTs");
    reveal_strlit("GE");
    reveal_strlit("GEs");
    reveal_strlit("NE");
    reveal_strlit("LT");
    reveal_strlit("LTs");
    reveal_strlit("LE");
    reveal_strlit("LEs");
    reveal_strlit("F");
    reveal_strlit("T");
    assert("Z"@.len() == 1 && "Z"@[0] == 'Z');
    assert("Ou"@.len() == 2 && "Ou"@[0] == 'O' && "Ou"@[1] == 'u');
    assert("Os"@.len() == 2 && "Os"@[0] == 'O' && "Os"@[1] == 's');
    assert("EQ"@.len() == 2 && "EQ"@[0] == 'E' && "EQ"@[1] == 'Q');
    assert("GT"@.len() == 2 && "GT"@[0] == 'G' && "GT"@[1] == 'T');
    assert("GTs"@.len() == 3 && "GTs"@[0] == 'G' && "GTs"@[1] == 'T' && "GTs"@[2] == 's');
    assert("GE"@.len() == 2 && "GE"@[0] == 'G' && "GE"@[1] == 'E');
    assert("GEs"@.len() == 3 && "GEs"@[0] == 'G' && "GEs"@[1] == 'E' && "GEs"@[2] == 's');
    assert("NE"@.len() == 2 && "NE"@[0] == 'N' && "NE"@[1] == 'E');
    assert("LT"@.len() == 2 && "LT"@[0] == 'L' && "LT"@[1] == 'T');
    assert("LTs"@.len() == 3 && "LTs"@[0] == 'L' && "LTs"@[1] == 'T' && "LTs"@[2] == 's');
    assert("LE"@.len() == 2 && "LE"@[0] == 'L' && "LE"@[1] == 'E');
    assert("LEs"@.len() == 3 && "LEs"@[0] == 'L' && "LEs"@[1] == 'E' && "LEs"@[2] == 's');
    assert("F"@.len() == 1 && "F"@[0] == 'F');
    assert("T"@.len() == 1 && "T"@[0] == 'T');
    lemma_no_space_token(spec_flag_name(f));
}

/// The canonical ALU operation name parses back to the operation, and is
/// a space-free token.
proof fn lemma_op_name_props(op: AluOpcode)
    ensures
        no_space(spec_op_name(op)),
        clean_token(spec_op_name(op)),
        spec_op_name(op).len() >= 1,
        spec_parse_alu_op(spec_op_name(op)) == Ok::<AluOpcode, AsmErrorV>(op),
{
    reveal_strlit("ADD");
    reveal_strlit("ADDC");
    reveal_strlit("INCR");
    reveal_strlit("DECR");
    reveal_strlit("XOR");
    reveal_strlit("NEG");
    reveal_strlit("SUB");
    reveal_strlit("OR");
    reveal_strlit("AND");
    reveal_strlit("NAND");
    reveal_strlit("NOR");
    reveal_strlit("SHIFTL");
    reveal_strlit("SHIFTR");
    reveal_strlit("ECHO");
    assert("ADD"@.len() == 3 && "ADD"@[0] == 'A' && "ADD"@[1] == 'D');
    assert("ADDC"@.len() == 4 && "ADDC"@[0] == 'A' && "ADDC"@[1] == 'D');
    assert("INCR"@.len() == 4 && "INCR"@[0] == 'I');
    assert("DECR"@.len() == 4 && "DECR"@[0] == 'D');
    assert("XOR"@.len() == 3 && "XOR"@[0] == 'X');
    assert("NEG"@.len() == 3 && "NEG"@[0] == 'N' && "NEG"@[1] == 'E');
    assert("SUB"@.len() == 3 && "SUB"@[0] == 'S');
    assert("OR"@.len() == 2 && "OR"@[0] == 'O');
    assert("AND"@.len() == 3 && "AND"@[0] == 'A' && "AND"@[1] == 'N');
    assert("NAND"@.len() == 4 && "NAND"@[0] == 'N' && "NAND"@[1] == 'A');
    assert("NOR"@.len() == 3 && "NOR"@[0] == 'N' && "NOR"@[1] == 'O');
    assert("SHIFTL"@.len() == 6 && "SHIFTL"@[0] == 'S' && "SHIFTL"@[5] == 'L');
    assert("SHIFTR"@.len() == 6 && "SHIFTR"@[0] == 'S' && "SHIFTR"@[5] == 'R');
    assert("ECHO"@.len() == 4 && "ECHO"@[0] == 'E');
    lemma_no_space_token(spec_op_name(op));
}

/// Disassemble-then-parse round trip for the data-move forms.
#[verifier::rlimit(100)]
#[verifier::spinoff_prover]
proof fn lemma_parse_render_mem(i: Instruction)
    requires
        i.wf(),
        i matches Instruction::Load { .. } || i matches Instruction::LoadP { .. } || i
            matches Instruction::Store { .. } || i matches Instruction::StoreP { .. } || i
            matches Instruction::Mov { .. } || i matches Instruction::MovC { .. },
    ensures
        spec_parse_line(spec_render_line(i)) == Ok::<Instruction, AsmErrorV>(i),
{
    reveal_strlit("LOAD");
    reveal_strlit("LOADP");
    reveal_strlit("STORE");
    reveal_strlit("STOREP");
    reveal_strlit("MOV");
    reveal_strlit("MOVC");
    reveal_strlit("=>");
    assert("LOAD"@.len() == 4 && "LOAD"@[0] == 'L');
    assert("LOADP"@.len() == 5 && "LOADP"@[0] == 'L');
    assert("STORE"@.len() == 5 && "STORE"@[0] == 'S');
    assert("STOREP"@.len() == 6 && "STOREP"@[0] == 'S');
    assert("MOV"@.len() == 3 && "MOV"@[0] == 'M');
    assert("MOVC"@.len() == 4 && "MOVC"@[0] == 'M');
    assert("=>"@.len() == 2 && "=>"@[0] == '=');
    lemma_no_space_token("LOAD"@);
    lemma_no_space_token("LOADP"@);
    lemma_no_space_token("STORE"@);
    lemma_no_space_token("STOREP"@);
    lemma_no_space_token("MOV"@);
    lemma_no_space_token("MOVC"@);
    lemma_no_space_token("=>"@);
    match i {
        Instruction::Load { dest, addr } => {
            lemma_word_text_props(addr);
            lemma_reg_name_props(dest);
            lemma_split4("LOAD"@, spec_word_text(addr), "=>"@, spec_reg_name(dest));
        },
        Instruction::LoadP { dest, addr_src } => {
            lemma_reg_name_props(addr_src);
            lemma_reg_name_props(dest);
            lemma_split4("LOADP"@, spec_reg_name(addr_src), "=>"@, spec_reg_name(dest));
        },
        Instruction::Store { src, addr } => {
            lemma_reg_name_props(src);
            lemma_word_text_props(addr);
            lemma_split4("STORE"@, spec_reg_name(src), "=>"@, spec_word_text(addr));
        },
        Instruction::StoreP { src, addr_src } => {
            lemma_reg_name_props(src);
            lemma_reg_name_props(addr_src);
            lemma_split4("STOREP"@, spec_reg_name(src), "=>"@, spec_reg_name(addr_src));
        },
        Instruction::Mov { dest, src } => {
            lemma_reg_name_props(src);
            lemma_reg_name_props(dest);
            lemma_split4("MOV"@, spec_reg_name(src), "=>"@, spec_reg_name(dest));
        },
        Instruction::MovC { dest, val } => {
            lemma_word_text_props(val);
            lemma_reg_name_props(dest);
            lemma_split4("MOVC"@, spec_word_text(val), "=>"@, spec_reg_name(dest));
        },
        _ => {},
    }
}

/// Disassemble-then-parse round trip for the jump forms and the
/// stack-frame load.
#[verifier::rlimit(100)]
#[verifier::spinoff_prover]
proof fn lemma_parse_render_jump(i: Instruction)
    requires
        i.wf(),
        i matches Instruction::Jmp { .. } || i matches Instruction::JmpP { .. } || i
            matches Instruction::JmpR { .. } || i matches Instruction::JmpRP { .. } || (i
            matches Instruction::Stack(s) && s matches StackInstruction::Load { .. }),
    ensures
        spec_parse_line(spec_render_line(i)) == Ok::<Instruction, AsmErrorV>(i),
{
    reveal_strlit("LOAD");
    reveal_strlit("LOADP");
    reveal_strlit("STORE");
    reveal_strlit("STOREP");
    reveal_strlit("MOV");
    reveal_strlit("MOVC");
    reveal_strlit("JMP");
    reveal_strlit("JMPP");
    reveal_strlit("JMPR");
    reveal_strlit("JMPRP");
    reveal_strlit("SLOAD");
    reveal_strlit("=>");
    reveal_strlit("?");
    assert("LOAD"@.len() == 4 && "LOAD"@[0] == 'L');
    assert("LOADP"@.len() == 5 && "LOADP"@[0] == 'L');
    assert("STORE"@.len() == 5 && "STORE"@[0] == 'S' && "STORE"@[1] == 'T');
    assert("STOREP"@.len() == 6);
    assert("MOV"@.len() == 3 && "MOV"@[0] == 'M');
    assert("MOVC"@.len() == 4 && "MOVC"@[0] == 'M');
    assert("JMP"@.len() == 3 && "JMP"@[0] == 'J');
    assert("JMPP"@.len() == 4 && "JMPP"@[0] == 'J' && "JMPP"@[3] == 'P');
    assert("JMPR"@.len() == 4 && "JMPR"@[0] == 'J' && "JMPR"@[3] == 'R');
    assert("JMPRP"@.len() == 5 && "JMPRP"@[0] == 'J');
    assert("SLOAD"@.len() == 5 && "SLOAD"@[0] == 'S' && "SLOAD"@[1] == 'L');
    assert("=>"@.len() == 2 && "=>"@[0] == '=');
    assert("?"@.len() == 1 && "?"@[0] == '?');
    lemma_no_space_token("JMP"@);
    lemma_no_space_token("JMPP"@);
    lemma_no_space_token("JMPR"@);
    lemma_no_space_token("JMPRP"@);
    lemma_no_space_token("SLOAD"@);
    lemma_no_space_token("=>"@);
    lemma_no_space_token("?"@);
    match i {
        Instruction::Jmp { flag, addr } => {
            lemma_flag_name_props(flag);
            lemma_word_text_props(addr);
            lemma_split4("JMP"@, spec_flag_name(flag), "?"@, spec_word_text(addr));
        },
        Instruction::JmpP { flag, addr_src } => {
            lemma_flag_name_props(flag);
            lemma_reg_name_props(addr_src);
            lemma_split4("JMPP"@, spec_flag_name(flag), "?"@, spec_reg_name(addr_src));
        },
        Instruction::JmpR { flag, diff } => {
            lemma_flag_name_props(flag);
            lemma_word_text_props(diff);
            lemma_split4("JMPR"@, spec_flag_name(flag), "?"@, spec_word_text(diff));
        },
        Instruction::JmpRP { flag, diff_src } => {
            lemma_flag_name_props(flag);
            lemma_reg_name_props(diff_src);
            lemma_split4("JMPRP"@, spec_flag_name(flag), "?"@, spec_reg_name(diff_src));
        },
        Instruction::Stack(StackInstruction::Load { dest, bp_diff }) => {
            lemma_word_text_props(bp_diff);
            lemma_reg_name_props(dest);
            lemma_split4("SLOAD"@, spec_word_text(bp_diff), "=>"@, spec_reg_name(dest));
        },
        _ => {},
    }
}

/// Disassemble-then-parse round trip for the one-operand stack forms.
#[verifier::rlimit(100)]
#[verifier::spinoff_prover]
proof fn lemma_parse_render_stack(i: Instruction)
    requires
        i.wf(),
        i matches Instruction::Stack(s) && !(s matches StackInstruction::Load { .. }),
    ensures
        spec_parse_line(spec_render_line(i)) == Ok::<Instruction, AsmErrorV>(i),
{
    reveal_strlit("PUSH");
    reveal_strlit("POP");
    reveal_strlit("CALL");
    reveal_strlit("CALLC");
    reveal_strlit("CALLR");
    reveal_strlit("RET");
    assert("PUSH"@.len() == 4 && "PUSH"@[0] == 'P');
    assert("POP"@.len() == 3 && "POP"@[0] == 'P');
    assert("CALL"@.len() == 4 && "CALL"@[0] == 'C');
    assert("CALLC"@.len() == 5 && "CALLC"@[0] == 'C' && "CALLC"@[4] == 'C');
    assert("CALLR"@.len() == 5 && "CALLR"@[0] == 'C' && "CALLR"@[4] == 'R');
    assert("RET"@.len() == 3 && "RET"@[0] == 'R');
    lemma_no_space_token("PUSH"@);
    lemma_no_space_token("POP"@);
    lemma_no_space_token("CALL"@);
    lemma_no_space_token("CALLC"@);
    lemma_no_space_token("CALLR"@);
    lemma_no_space_token("RET"@);
    match i {
        Instruction::Stack(stack_ins) => match stack_ins {
            StackInstruction::Push { src } => {
                lemma_reg_name_props(src);
                lemma_split2("PUSH"@, spec_reg_name(src));
            },
            StackInstruction::Pop { dest } => {
                lemma_reg_name_props(dest);
                lemma_split2("POP"@, spec_reg_name(dest));
            },
            StackInstruction::Call { addr_reg } => {
                lemma_reg_name_props(addr_reg);
                lemma_split2("CALL"@, spec_reg_name(addr_reg));
            },
            StackInstruction::CallC { addr } => {
                lemma_word_text_props(addr);
                lemma_split2("CALLC"@, spec_word_text(addr));
            },
            StackInstruction::CallR { diff } => {
                lemma_word_text_props(diff);
                lemma_split2("CALLR"@, spec_word_text(diff));
            },
            StackInstruction::Ret { src } => {
                lemma_reg_name_props(src);
                lemma_split2("RET"@, spec_reg_name(src));
            },
            StackInstruction::Load { .. } => {},
        },
        _ => {},
    }
}

/// Disassemble-then-parse round trip for the port, ALU and NOP forms.
#[verifier::rlimit(100)]
#[verifier::spinoff_prover]
proof fn lemma_parse_render_misc(i: Instruction)
    requires
        i.wf(),
        i matches Instruction::Gpi { .. } || i matches Instruction::Gpo { .. } || i
            matches Instruction::Alu { .. } || i matches Instruction::Nop(_),
    ensures
        spec_parse_line(spec_render_line(i)) == Ok::<Instruction, AsmErrorV>(i),
{
    reveal_strlit("GPI");
    reveal_strlit("GPO");
    reveal_strlit("ALU");
    reveal_strlit("NOP");
    reveal_strlit("HALT");
    reveal_strlit("<=");
    reveal_strlit("=>");
    assert("GPI"@.len() == 3 && "GPI"@[2] == 'I');
    assert("GPO"@.len() == 3 && "GPO"@[2] == 'O');
    assert("ALU"@.len() == 3 && "ALU"@[0] == 'A');
    assert("NOP"@.len() == 3 && "NOP"@[0] == 'N');
    assert("HALT"@.len() == 4 && "HALT"@[0] == 'H');
    assert("<="@.len() == 2 && "<="@[0] == '<');
    assert("=>"@.len() == 2 && "=>"@[0] == '=');
    lemma_no_space_token("GPI"@);
    lemma_no_space_token("GPO"@);
    lemma_no_space_token("ALU"@);
    lemma_no_space_token("NOP"@);
    lemma_no_space_token("HALT"@);
    lemma_no_space_token("<="@);
    lemma_no_space_token("=>"@);
    match i {
        Instruction::Gpi { dest } => {
            lemma_reg_name_props(dest);
            lemma_split3("GPI"@, spec_reg_name(dest), "<="@);
        },
        Instruction::Gpo { src } => {
            lemma_reg_name_props(src);
            lemma_split3("GPO"@, spec_reg_name(src), "=>"@);
        },
        Instruction::Alu { op, arg1, arg2, out } => {
            lemma_op_name_props(op);
            lemma_reg_name_props(arg1);
            lemma_reg_name_props(arg2);
            lemma_reg_name_props(out);
            lemma_split6(
                "ALU"@,
                spec_op_name(op),
                spec_reg_name(arg1),
                spec_reg_name(arg2),
                "=>"@,
                spec_reg_name(out),
            );
        },
        Instruction::Nop(NopOpcode::Nop) => {
            crate::text::lemma_split_none("NOP"@, ' ');
        },
        Instruction::Nop(NopOpcode::Halt) => {
            crate::text::lemma_split_none("HALT"@, ' ');
        },
        _ => {},
    }
}

/// Idempotent assembly, line level: parsing the canonical source line of
/// any well-formed instruction yields that instruction back. Together
/// with the wire round-trip law, disassembling the encoding of a parsed
/// canonical line reproduces the line.
pub proof fn lemma_parse_render(i: Instruction)
    requires
        i.wf(),
    ensures
        spec_parse_line(spec_render_line(i)) == Ok::<Instruction, AsmErrorV>(i),
{
    match i {
        Instruction::Load { .. } => lemma_parse_render_mem(i),
        Instruction::LoadP { .. } => lemma_parse_render_mem(i),
        Instruction::Store { .. } => lemma_parse_render_mem(i),
        Instruction::StoreP { .. } => lemma_parse_render_mem(i),
        Instruction::Mov { .. } => lemma_parse_render_mem(i),
        Instruction::MovC { .. } => lemma_parse_render_mem(i),
        Instruction::Jmp { .. } => lemma_parse_render_jump(i),
        Instruction::JmpP { .. } => lemma_parse_render_jump(i),
        Instruction::JmpR { .. } => lemma_parse_render_jump(i),
        Instruction::JmpRP { .. } => lemma_parse_render_jump(i),
        Instruction::Stack(s) => match s {
            StackInstruction::Load { .. } => lemma_parse_render_jump(i),
            _ => lemma_parse_render_stack(i),
        },
        Instruction::Gpi { .. } => lemma_parse_render_misc(i),
        Instruction::Gpo { .. } => lemma_parse_render_misc(i),
        Instruction::Alu { .. } => lemma_parse_render_misc(i),
        Instruction::Nop(_) => lemma_parse_render_misc(i),
    }
}

/// Splitting a string that starts with a separator-free piece and then
/// the separator yields that piece and the split of the rest.
proof fn lemma_split_prefix_sep(t0: Seq<char>, rest: Seq<char>, sep: char)
    requires
        forall|k: int| 0 <= k < t0.len() ==> t0[k] != sep,
    ensures
        split_char(t0 + seq![sep] + rest, sep) == seq![t0] + split_char(rest, sep),
{
    let s = t0 + seq![sep] + rest;
    assert(s[t0.len() as int] == sep);
    crate::text::lemma_first_sep_at(s, sep, t0.len() as int);
    assert(s.subrange(0, t0.len() as int) =~= t0);
    assert(s.subrange(t0.len() as int + 1, s.len() as int) =~= rest);
}

/// Concatenation keeps a line free of newlines.
proof fn lemma_line_clean_concat(a: Seq<char>, b: Seq<char>)
    requires
        line_clean(a),
        line_clean(b),
    ensures
        line_clean(a + b),
{
    assert forall|k: int| 0 <= k < (a + b).len() implies (a + b)[k] != '\n' by {
        if k < a.len() {
        } else {
        }
    }
}

/// A clean token has no newline in it.
proof fn lemma_clean_line(s: Seq<char>)
    requires
        clean_token(s),
    ensures
        line_clean(s),
{
    assert forall|k: int| 0 <= k < s.len() implies s[k] != '\n' by {
        assert(!is_space_char(s[k]));
    }
}

/// A single space has no newline in it.
proof fn lemma_sp_line_clean()
    ensures
        line_clean(sp()),
{
    assert forall|k: int| 0 <= k < sp().len() implies sp()[k] != '\n' by {
        assert(k == 0);
    }
}

/// A canonical two-token line has no newline, starts with the mnemonic's
/// first character and ends with the last token's last character.
proof fn lemma_line2_clean(m: Seq<char>, x1: Seq<char>)
    requires
        clean_token(m),
        clean_token(x1),
        m.len() >= 1,
        x1.len() >= 1,
    ensures
        line_clean(m + sp() + x1),
        (m + sp() + x1).len() >= 1,
        !is_space_char((m + sp() + x1)[0]),
        (m + sp() + x1)[0] != '#',
        !is_space_char((m + sp() + x1).last()),
{
    lemma_clean_line(m);
    lemma_clean_line(x1);
    lemma_sp_line_clean();
    lemma_line_clean_concat(m, sp());
    lemma_line_clean_concat(m + sp(), x1);
    assert((m + sp() + x1)[0] == m[0]);
    assert((m + sp() + x1).last() == x1.last());
}

/// A canonical three-token line is clean in the same way.
proof fn lemma_line3_clean(m: Seq<char>, x1: Seq<char>, x2: Seq<char>)
    requires
        clean_token(m),
        clean_token(x1),
        clean_token(x2),
        m.len() >= 1,
        x2.len() >= 1,
    ensures
        line_clean(m + sp() + x1 + sp() + x2),
        (m + sp() + x1 + sp() + x2).len() >= 1,
        !is_space_char((m + sp() + x1 + sp() + x2)[0]),
        (m + sp() + x1 + sp() + x2)[0] != '#',
        !is_space_char((m + sp() + x1 + sp() + x2).last()),
{
    lemma_clean_line(m);
    lemma_clean_line(x1);
    lemma_clean_line(x2);
    lemma_sp_line_clean();
    lemma_line_clean_concat(m, sp());
    lemma_line_clean_concat(m + sp(), x1);
    lemma_line_clean_concat(m + sp() + x1, sp());
    lemma_line_clean_concat(m + sp() + x1 + sp(), x2);
    assert((m + sp() + x1 + sp() + x2)[0] == m[0]);
    assert((m + sp() + x1 + sp() + x2).last() == x2.last());
}

/// A canonical four-token line is clean in the same way.
proof fn lemma_line4_clean(m: Seq<char>, x1: Seq<char>, x2: Seq<char>, x3: Seq<char>)
    requires
        clean_token(m),
        clean_token(x1),
        clean_token(x2),
        clean_token(x3),
        m.len() >= 1,
        x3.len() >= 1,
    ensures
        line_clean(m + sp() + x1 + sp() + x2 + sp() + x3),
        (m + sp() + x1 + sp() + x2 + sp() + x3).len() >= 1,
        !is_space_char((m + sp() + x1 + sp() + x2 + sp() + x3)[0]),
        (m + sp() + x1 + sp() + x2 + sp() + x3)[0] != '#',
        !is_space_char((m + sp() + x1 + sp() + x2 + sp() + x3).last()),
{
    lemma_clean_line(m);
    lemma_clean_line(x1);
    lemma_clean_line(x2);
    lemma_clean_line(x3);
    lemma_sp_line_clean();
    lemma_line_clean_concat(m, sp());
    lemma_line_clean_concat(m + sp(), x1);
    lemma_line_clean_concat(m + sp() + x1, sp());
    lemma_line_clean_concat(m + sp() + x1 + sp(), x2);
    lemma_line_clean_concat(m + sp() + x1 + sp() + x2, sp());
    lemma_line_clean_concat(m + sp() + x1 + sp() + x2 + sp(), x3);
    assert((m + sp() + x1 + sp() + x2 + sp() + x3)[0] == m[0]);
    assert((m + sp() + x1 + sp() + x2 + sp() + x3).last() == x3.last());
}

/// A canonical six-token line is clean in the same way.
proof fn lemma_line6_clean(
    m: Seq<char>,
    x1: Seq<char>,
    x2: Seq<char>,
    x3: Seq<char>,
    x4: Seq<char>,
    x5: Seq<char>,
)
    requires
        clean_token(m),
        clean_token(x1),
        clean_token(x2),
        clean_token(x3),
        clean_token(x4),
        clean_token(x5),
        m.len() >= 1,
        x5.len() >= 1,
    ensures
        line_clean(m + sp() + x1 + sp() + x2 + sp() + x3 + sp() + x4 + sp() + x5),
        (m + sp() + x1 + sp() + x2 + sp() + x3 + sp() + x4 + sp() + x5).len() >= 1,
        !is_space_char((m + sp() + x1 + sp() + x2 + sp() + x3 + sp() + x4 + sp() + x5)[0]),
        (m + sp() + x1 + sp() + x2 + sp() + x3 + sp() + x4 + sp() + x5)[0] != '#',
        !is_space_char((m + sp() + x1 + sp() + x2 + sp() + x3 + sp() + x4 + sp() + x5).last()),
{
    lemma_clean_line(m);
    lemma_clean_line(x1);
    lemma_clean_line(x2);
    lemma_clean_line(x3);
    lemma_clean_line(x4);
    lemma_clean_line(x5);
    lemma_sp_line_clean();
    lemma_line_clean_concat(m, sp());
    lemma_line_clean_concat(m + sp(), x1);
    lemma_line_clean_concat(m + sp() + x1, sp());
    lemma_line_clean_concat(m + sp() + x1 + sp(), x2);
    lemma_line_clean_concat(m + sp() + x1 + sp() + x2, sp());
    lemma_line_clean_concat(m + sp() + x1 + sp() + x2 + sp(), x3);
    lemma_line_clean_concat(m + sp() + x1 + sp() + x2 + sp() + x3, sp());
    lemma_line_clean_concat(m + sp() + x1 + sp() + x2 + sp() + x3 + sp(), x4);
    lemma_line_clean_concat(m + sp() + x1 + sp() + x2 + sp() + x3 + sp() + x4, sp());
    lemma_line_clean_concat(m + sp() + x1 + sp() + x2 + sp() + x3 + sp() + x4 + sp(), x5);
    assert((m + sp() + x1 + sp() + x2 + sp() + x3 + sp() + x4 + sp() + x5)[0] == m[0]);
    assert((m + sp() + x1 + sp() + x2 + sp() + x3 + sp() + x4 + sp() + x5).last() == x5.last());
}

/// Cleanliness of the data-move lines.
#[verifier::rlimit(100)]
#[verifier::spinoff_prover]
proof fn lemma_render_clean_mem(i: Instruction)
    requires
        i matches Instruction::Load { .. } || i matches Instruction::LoadP { .. } || i
            matches Instruction::Store { .. } || i matches Instruction::StoreP { .. } || i
            matches Instruction::Mov { .. } || i matches Instruction::MovC { .. },
    ensures
        line_clean(spec_render_line(i)),
        spec_render_line(i).len() >= 1,
        !is_space_char(spec_render_line(i)[0]),
        spec_render_line(i)[0] != '#',
        !is_space_char(spec_render_line(i).last()),
{
    reveal_strlit("LOAD");
    reveal_strlit("LOADP");
    reveal_strlit("STORE");
    reveal_strlit("STOREP");
    reveal_strlit("MOV");
    reveal_strlit("MOVC");
    reveal_strlit("=>");
    lemma_no_space_token("LOAD"@);
    lemma_no_space_token("LOADP"@);
    lemma_no_space_token("STORE"@);
    lemma_no_space_token("STOREP"@);
    lemma_no_space_token("MOV"@);
    lemma_no_space_token("MOVC"@);
    lemma_no_space_token("=>"@);
    match i {
        Instruction::Load { dest, addr } => {
            lemma_word_text_props(addr);
            lemma_reg_name_props(dest);
            lemma_line4_clean("LOAD"@, spec_word_text(addr), "=>"@, spec_reg_name(dest));
        },
        Instruction::LoadP { dest, addr_src } => {
            lemma_reg_name_props(addr_src);
            lemma_reg_name_props(dest);
            lemma_line4_clean("LOADP"@, spec_reg_name(addr_src), "=>"@, spec_reg_name(dest));
        },
        Instruction::Store { src, addr } => {
            lemma_reg_name_props(src);
            lemma_word_text_props(addr);
            lemma_line4_clean("STORE"@, spec_reg_name(src), "=>"@, spec_word_text(addr));
        },
        Instruction::StoreP { src, addr_src } => {
            lemma_reg_name_props(src);
            lemma_reg_name_props(addr_src);
            lemma_line4_clean("STOREP"@, spec_reg_name(src), "=>"@, spec_reg_name(addr_src));
        },
        Instruction::Mov { dest, src } => {
            lemma_reg_name_props(src);
            lemma_reg_name_props(dest);
            lemma_line4_clean("MOV"@, spec_reg_name(src), "=>"@, spec_reg_name(dest));
        },
        Instruction::MovC { dest, val } => {
            lemma_word_text_props(val);
            lemma_reg_name_props(dest);
            lemma_line4_clean("MOVC"@, spec_word_text(val), "=>"@, spec_reg_name(dest));
        },
        _ => {},
    }
}

/// Cleanliness of the jump lines and the stack-frame load line.
#[verifier::rlimit(100)]
#[verifier::spinoff_prover]
proof fn lemma_render_clean_jump(i: Instruction)
    requires
        i matches Instruction::Jmp { .. } || i matches Instruction::JmpP { .. } || i
            matches Instruction::JmpR { .. } || i matches Instruction::JmpRP { .. } || (i
            matches Instruction::Stack(s) && s matches StackInstruction::Load { .. }),
    ensures
        line_clean(spec_render_line(i)),
        spec_render_line(i).len() >= 1,
        !is_space_char(spec_render_line(i)[0]),
        spec_render_line(i)[0] != '#',
        !is_space_char(spec_render_line(i).last()),
{
    reveal_strlit("JMP");
    reveal_strlit("JMPP");
    reveal_strlit("JMPR");
    reveal_strlit("JMPRP");
    reveal_strlit("SLOAD");
    reveal_strlit("=>");
    reveal_strlit("?");
    lemma_no_space_token("JMP"@);
    lemma_no_space_token("JMPP"@);
    lemma_no_space_token("JMPR"@);
    lemma_no_space_token("JMPRP"@);
    lemma_no_space_token("SLOAD"@);
    lemma_no_space_token("=>"@);
    lemma_no_space_token("?"@);
    match i {
        Instruction::Jmp { flag, addr } => {
            lemma_flag_name_props(flag);
            lemma_word_text_props(addr);
            lemma_line4_clean("JMP"@, spec_flag_name(flag), "?"@, spec_word_text(addr));
        },
        Instruction::JmpP { flag, addr_src } => {
            lemma_flag_name_props(flag);
            lemma_reg_name_props(addr_src);
            lemma_line4_clean("JMPP"@, spec_flag_name(flag), "?"@, spec_reg_name(addr_src));
        },
        Instruction::JmpR { flag, diff } => {
            lemma_flag_name_props(flag);
            lemma_word_text_props(diff);
            lemma_line4_clean("JMPR"@, spec_flag_name(flag), "?"@, spec_word_text(diff));
        },
        Instruction::JmpRP { flag, diff_src } => {
            lemma_flag_name_props(flag);
            lemma_reg_name_props(diff_src);
            lemma_line4_clean("JMPRP"@, spec_flag_name(flag), "?"@, spec_reg_name(diff_src));
        },
        Instruction::Stack(StackInstruction::Load { dest, bp_diff }) => {
            lemma_word_text_props(bp_diff);
            lemma_reg_name_props(dest);
            lemma_line4_clean("SLOAD"@, spec_word_text(bp_diff), "=>"@, spec_reg_name(dest));
        },
        _ => {},
    }
}

/// Cleanliness of the one-operand stack lines.
#[verifier::rlimit(100)]
#[verifier::spinoff_prover]
proof fn lemma_render_clean_stack(i: Instruction)
    requires
        i matches Instruction::Stack(s) && !(s matches StackInstruction::Load { .. }),
    ensures
        line_clean(spec_render_line(i)),
        spec_render_line(i).len() >= 1,
        !is_space_char(spec_render_line(i)[0]),
        spec_render_line(i)[0] != '#',
        !is_space_char(spec_render_line(i).last()),
{
    reveal_strlit("PUSH");
    reveal_strlit("POP");
    reveal_strlit("CALL");
    reveal_strlit("CALLC");
    reveal_strlit("CALLR");
    reveal_strlit("RET");
    lemma_no_space_token("PUSH"@);
    lemma_no_space_token("POP"@);
    lemma_no_space_token("CALL"@);
    lemma_no_space_token("CALLC"@);
    lemma_no_space_token("CALLR"@);
    lemma_no_space_token("RET"@);
    match i {
        Instruction::Stack(stack_ins) => match stack_ins {
            StackInstruction::Push { src } => {
                lemma_reg_name_props(src);
                lemma_line2_clean("PUSH"@, spec_reg_name(src));
            },
            StackInstruction::Pop { dest } => {
                lemma_reg_name_props(dest);
                lemma_line2_clean("POP"@, spec_reg_name(dest));
            },
            StackInstruction::Call { addr_reg } => {
                lemma_reg_name_props(addr_reg);
                lemma_line2_clean("CALL"@, spec_reg_name(addr_reg));
            },
            StackInstruction::CallC { addr } => {
                lemma_word_text_props(addr);
                lemma_line2_clean("CALLC"@, spec_word_text(addr));
            },
            StackInstruction::CallR { diff } => {
                lemma_word_text_props(diff);
                lemma_line2_clean("CALLR"@, spec_word_text(diff));
            },
            StackInstruction::Ret { src } => {
                lemma_reg_name_props(src);
                lemma_line2_clean("RET"@, spec_reg_name(src));
            },
            StackInstruction::Load { .. } => {},
        },
        _ => {},
    }
}

/// Cleanliness of the port, ALU and NOP lines.
#[verifier::rlimit(100)]
#[verifier::spinoff_prover]
proof fn lemma_render_clean_misc(i: Instruction)
    requires
        i matches Instruction::Gpi { .. } || i matches Instruction::Gpo { .. } || i
            matches Instruction::Alu { .. } || i matches Instruction::Nop(_),
    ensures
        line_clean(spec_render_line(i)),
        spec_render_line(i).len() >= 1,
        !is_space_char(spec_render_line(i)[0]),
        spec_render_line(i)[0] != '#',
        !is_space_char(spec_render_line(i).last()),
{
    reveal_strlit("GPI");
    reveal_strlit("GPO");
    reveal_strlit("ALU");
    reveal_strlit("NOP");
    reveal_strlit("HALT");
    reveal_strlit("=>");
    reveal_strlit("<=");
    lemma_no_space_token("GPI"@);
    lemma_no_space_token("GPO"@);
    lemma_no_space_token("ALU"@);
    lemma_no_space_token("NOP"@);
    lemma_no_space_token("HALT"@);
    lemma_no_space_token("=>"@);
    lemma_no_space_token("<="@);
    match i {
        Instruction::Gpi { dest } => {
            lemma_reg_name_props(dest);
            lemma_line3_clean("GPI"@, spec_reg_name(dest), "<="@);
        },
        Instruction::Gpo { src } => {
            lemma_reg_name_props(src);
            lemma_line3_clean("GPO"@, spec_reg_name(src), "=>"@);
        },
        Instruction::Alu { op, arg1, arg2, out } => {
            lemma_op_name_props(op);
            lemma_reg_name_props(arg1);
            lemma_reg_name_props(arg2);
            lemma_reg_name_props(out);
            lemma_line6_clean(
                "ALU"@,
                spec_op_name(op),
                spec_reg_name(arg1),
                spec_reg_name(arg2),
                "=>"@,
                spec_reg_name(out),
            );
        },
        Instruction::Nop(NopOpcode::Nop) => {
            assert(!is_space_char("NOP"@[0]) && "NOP"@[0] != '#');
            assert(!is_space_char("NOP"@.last()));
            lemma_clean_line("NOP"@);
        },
        Instruction::Nop(NopOpcode::Halt) => {
            assert(!is_space_char("HALT"@[0]) && "HALT"@[0] != '#');
            assert(!is_space_char("HALT"@.last()));
            lemma_clean_line("HALT"@);
        },
        _ => {},
    }
}

/// The canonical source line of an instruction has no newline, is not
/// empty, and neither starts nor ends with whitespace or a comment mark,
/// so line splitting and trimming leave it untouched.
proof fn lemma_render_line_clean(i: Instruction)
    ensures
        line_clean(spec_render_line(i)),
        spec_render_line(i).len() >= 1,
        !is_space_char(spec_render_line(i)[0]),
        spec_render_line(i)[0] != '#',
        !is_space_char(spec_render_line(i).last()),
{
    match i {
        Instruction::Load { .. } => lemma_render_clean_mem(i),
        Instruction::LoadP { .. } => lemma_render_clean_mem(i),
        Instruction::Store { .. } => lemma_render_clean_mem(i),
        Instruction::StoreP { .. } => lemma_render_clean_mem(i),
        Instruction::Mov { .. } => lemma_render_clean_mem(i),
        Instruction::MovC { .. } => lemma_render_clean_mem(i),
        Instruction::Jmp { .. } => lemma_render_clean_jump(i),
        Instruction::JmpP { .. } => lemma_render_clean_jump(i),
        Instruction::JmpR { .. } => lemma_render_clean_jump(i),
        Instruction::JmpRP { .. } => lemma_render_clean_jump(i),
        Instruction::Stack(s) => match s {
            StackInstruction::Load { .. } => lemma_render_clean_jump(i),
            _ => lemma_render_clean_stack(i),
        },
        Instruction::Gpi { .. } => lemma_render_clean_misc(i),
        Instruction::Gpo { .. } => lemma_render_clean_misc(i),
        Instruction::Alu { .. } => lemma_render_clean_misc(i),
        Instruction::Nop(_) => lemma_render_clean_misc(i),
    }
}

/// Idempotent assembly, program level: assembling the disassembly of any
/// well-formed instruction sequence yields that sequence back.
pub proof fn lemma_assemble_disassemble(p: Seq<Instruction>)
    requires
        forall|j: int| 0 <= j < p.len() ==> (#[trigger] p[j]).wf(),
    ensures
        crate::assembler::spec_assemble(spec_render_program(p)) == Ok::<
            Seq<Instruction>,
            AsmErrorV,
        >(p),
    decreases p.len(),
{
    if p.len() == 0 {
        crate::text::lemma_split_none(Seq::<char>::empty(), '\n');
        let lines = seq![Seq::<char>::empty()];
        assert(spec_render_program(p) =~= Seq::<char>::empty());
        assert(split_char(spec_render_program(p), '\n') == lines);
        assert(lines.drop_first() =~= Seq::<Seq<char>>::empty());
        assert(crate::text::spec_trim(Seq::<char>::empty()).len() == 0);
        assert(crate::assembler::spec_assemble_lines(Seq::<Seq<char>>::empty()) == Ok::<
            Seq<Instruction>,
            AsmErrorV,
        >(Seq::<Instruction>::empty()));
        assert(crate::assembler::spec_assemble_lines(lines) == Ok::<Seq<Instruction>, AsmErrorV>(
            Seq::<Instruction>::empty(),
        ));
        assert(p =~= Seq::<Instruction>::empty());
    } else {
        let line0 = spec_render_line(p[0]);
        let rest = p.drop_first();
        let rest_text = spec_render_program(rest);
        lemma_render_line_clean(p[0]);
        assert(forall|k: int| 0 <= k < line0.len() ==> line0[k] != '\n');
        lemma_split_prefix_sep(line0, rest_text, '\n');
        assert(forall|j: int| 0 <= j < rest.len() ==> (#[trigger] rest[j]).wf()) by {
            assert(forall|j: int|
                0 <= j < rest.len() ==> rest[j] == #[trigger] p[j + 1] && p[j + 1].wf());
        }
        lemma_assemble_disassemble(rest);
        lemma_parse_render(p[0]);
        crate::text::lemma_trim_range(line0, 0, line0.len() as int);
        assert(crate::text::spec_trim(line0) =~= line0);
        let lines = seq![line0] + split_char(rest_text, '\n');
        assert(spec_render_program(p) == line0 + seq!['\n'] + rest_text);
        assert(split_char(spec_render_program(p), '\n') == lines);
        assert(lines[0] == line0);
        assert(lines.drop_first() =~= split_char(rest_text, '\n'));
        assert(crate::assembler::spec_parse_line(crate::text::spec_trim(lines[0])) == Ok::<
            Instruction,
            AsmErrorV,
        >(p[0]));
        assert(crate::assembler::spec_assemble_lines(lines.drop_first()) == Ok::<
            Seq<Instruction>,
            AsmErrorV,
        >(rest));
        assert(seq![p[0]] + rest =~= p);
        assert(crate::assembler::spec_assemble_lines(lines) == Ok::<Seq<Instruction>, AsmErrorV>(
            p,
        ));
    }
}

} // verus!
