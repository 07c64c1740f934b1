//! Architectural laws of the machine, each proved against the step
//! semantics `MachineV::step_spec`.

use vstd::prelude::*;

use crate::alu::lemma_flag_exclusivity;
use crate::alu::spec_addr_add;
use crate::isa::Instruction;
use crate::isa::NopOpcode;
use crate::isa::RegisterRef;
use crate::isa::StackInstruction;
use crate::isa::Word;
use crate::machine::MachineV;

verus! {

/// Whether an instruction falls straight through: it neither branches,
/// calls, returns nor halts, so it only advances the instruction pointer.
pub open spec fn is_sequential(i: Instruction) -> bool {
    match i {
        Instruction::Jmp { .. } => false,
        Instruction::JmpP { .. } => false,
        Instruction::JmpR { .. } => false,
        Instruction::JmpRP { .. } => false,
        Instruction::Stack(s) => match s {
            StackInstruction::Call { .. } => false,
            StackInstruction::CallC { .. } => false,
            StackInstruction::CallR { .. } => false,
            StackInstruction::Ret { .. } => false,
            _ => true,
        },
        Instruction::Nop(NopOpcode::Halt) => false,
        _ => true,
    }
}

/// Instruction pointer invariant: after any non-branch, non-call,
/// non-ret, non-halt instruction, the instruction pointer has advanced by
/// exactly two bytes, modulo 256.
pub proof fn lemma_ip_advance(m: MachineV)
    requires
        m.wf(),
        m.decoded() matches Ok(i) && is_sequential(i),
    ensures
        m.step_spec().eip == spec_addr_add(m.eip, 2),
{
    let i = m.decoded()->Ok_0;
    match i {
        Instruction::Stack(s) => {
            match s {
                StackInstruction::Push { .. } => {},
                StackInstruction::Pop { .. } => {},
                StackInstruction::Load { .. } => {},
                _ => {},
            }
        },
        _ => {},
    }
}

/// Flag exclusivity: after any ALU instruction executes, EQ and NE
/// disagree, and so do the pairs GT/LE, GTs/LEs, GE/LT and GEs/LTs.
pub proof fn lemma_step_flag_exclusivity(m: MachineV)
    requires
        m.wf(),
        m.decoded() matches Ok(i) && i matches Instruction::Alu { .. },
    ensures
        m.step_spec().flags.equal != m.step_spec().flags.not_equal,
        m.step_spec().flags.greater_than != m.step_spec().flags.less_or_equal,
        m.step_spec().flags.greater_than_signed != m.step_spec().flags.less_or_equal_signed,
        m.step_spec().flags.greater_or_equal != m.step_spec().flags.less_than,
        m.step_spec().flags.greater_or_equal_signed != m.step_spec().flags.less_than_signed,
{
    let i = m.decoded()->Ok_0;
    match i {
        Instruction::Alu { op, arg1, arg2, out } => {
            lemma_flag_exclusivity(op, m.registers.spec_get(arg1), m.registers.spec_get(arg2));
        },
        _ => {},
    }
}

/// Growing the stack by one cell and shrinking it again restores the
/// stack pointer.
proof fn lemma_wrap_inverse(x: Word)
    ensures
        spec_addr_add(spec_addr_add(x, 255), 1) == x,
{
    if x == 0 {
        assert(spec_addr_add(0, 255) == 255);
        assert(spec_addr_add(255, 1) == 0);
    } else {
        assert(spec_addr_add(x, 255) == x - 1);
        assert(spec_addr_add((x - 1) as u8, 1) == x);
    }
}

/// One cell of stack growth moves the stack pointer to a new address.
proof fn lemma_wrap_dec_ne(x: Word)
    ensures
        spec_addr_add(x, 255) != x,
{
    if x == 0 {
        assert(spec_addr_add(0, 255) == 255);
    } else {
        assert(spec_addr_add(x, 255) == x - 1);
    }
}

/// Stack conservation: a PUSH followed by a POP into any register other
/// than the stack pointer restores `ST`, and the popped register holds
/// the value that the PUSH read.
pub proof fn lemma_push_pop(m: MachineV, src: RegisterRef, dest: RegisterRef)
    requires
        m.wf(),
        m.decoded() == Ok::<Instruction, crate::isa::DecodeError>(
            Instruction::Stack(StackInstruction::Push { src }),
        ),
        m.step_spec().decoded() == Ok::<Instruction, crate::isa::DecodeError>(
            Instruction::Stack(StackInstruction::Pop { dest }),
        ),
        dest != RegisterRef::ST,
    ensures
        m.step_spec().step_spec().registers.spec_get(RegisterRef::ST) == m.registers.spec_get(
            RegisterRef::ST,
        ),
        m.step_spec().step_spec().registers.spec_get(dest) == m.read_reg(src),
{
    let st0 = m.registers.spec_get(RegisterRef::ST);
    lemma_wrap_inverse(st0);
}

/// Call/return discipline: a CALLC to a target whose instruction is a
/// matching RET lands on the instruction after the call, restores the
/// caller's frame base pointer, and leaves exactly one new cell on the
/// stack, holding what the RET read from `src`. The RET reads `src`
/// after the caller's frame is restored, so `src` may not be `ST` or
/// `BP`, whose values at that moment are the restored ones.
pub proof fn lemma_call_ret(m: MachineV, target: Word, src: RegisterRef)
    requires
        m.wf(),
        m.decoded() == Ok::<Instruction, crate::isa::DecodeError>(
            Instruction::Stack(StackInstruction::CallC { addr: target }),
        ),
        m.step_spec().decoded() == Ok::<Instruction, crate::isa::DecodeError>(
            Instruction::Stack(StackInstruction::Ret { src }),
        ),
        src != RegisterRef::ST,
        src != RegisterRef::BP,
    ensures
        m.step_spec().step_spec().eip == spec_addr_add(m.eip, 2),
        m.step_spec().step_spec().registers.spec_get(RegisterRef::BP) == m.registers.spec_get(
            RegisterRef::BP,
        ),
        m.step_spec().step_spec().registers.spec_get(RegisterRef::ST) == spec_addr_add(
            m.registers.spec_get(RegisterRef::ST),
            255,
        ),
        m.step_spec().step_spec().memory[m.step_spec().step_spec().registers.spec_get(
            RegisterRef::ST,
        ) as int] == m.step_spec().read_reg(src),
{
    let st0 = m.registers.spec_get(RegisterRef::ST);
    let st1 = spec_addr_add(st0, 255);
    let st2 = spec_addr_add(st1, 255);
    lemma_wrap_inverse(st0);
    lemma_wrap_inverse(st1);
    lemma_wrap_dec_ne(st1);
    let m1 = m.step_spec();
    assert(m1.registers.spec_get(RegisterRef::ST) == st2);
    assert(m1.registers.spec_get(RegisterRef::BP) == st2);
    assert(m1.memory[st1 as int] == m.eip);
    assert(m1.memory[st2 as int] == m.registers.spec_get(RegisterRef::BP));
}

} // verus!
