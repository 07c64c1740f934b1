//! The LEG machine: registers, flags, a 256-byte program image, a 256-byte
//! data memory, two host ports, and the cycle-accurate interpreter.
//!
//! All mutation funnels through `step`, which fetches the two bytes at the
//! instruction pointer, decodes them and executes one instruction. The
//! whole semantics is captured by the specification function
//! `MachineV::step_spec`; `step` is proved to implement it exactly.
//!
//! Every address computation — the instruction pointer, relative jumps,
//! stack growth and stack-frame offsets — wraps modulo 256. A decode
//! failure at fetch time is fatal: the machine stops and keeps its state
//! at the failing instruction pointer.

use vstd::pervasive::unreached;
use vstd::prelude::*;

use crate::alu::alu_flags;
use crate::alu::alu_result;
use crate::alu::spec_addr_add;
use crate::alu::spec_alu_flags;
use crate::alu::spec_alu_result;
use crate::alu::AluFlags;
use crate::isa::spec_decode;
use crate::isa::AluFlagRef;
use crate::isa::AluOpcode;
use crate::isa::DecodeError;
use crate::isa::Instruction;
use crate::isa::NopOpcode;
use crate::isa::RegisterRef;
use crate::isa::StackInstruction;
use crate::isa::Word;
use crate::registers::Registers;

verus! {

/// The 256-byte memory image: `s` truncated to 256 bytes, with zeros
/// beyond its length.
pub open spec fn spec_pad256(s: Seq<Word>) -> Seq<Word> {
    Seq::new(
        256,
        |i: int|
            if i < s.len() {
                s[i]
            } else {
                0u8
            },
    )
}

/// The mathematical state of a machine: the view of `LegComputer`.
#[verifier::ext_equal]
pub ghost struct MachineV {
    pub eip: Word,
    pub program: Seq<Word>,
    pub memory: Seq<Word>,
    pub flags: AluFlags,
    pub registers: Registers,
    pub reg_i: Word,
    pub reg_o: Word,
}

impl MachineV {
    /// Both images hold exactly 256 bytes, so every byte address is valid.
    pub open spec fn wf(self) -> bool {
        self.program.len() == 256 && self.memory.len() == 256
    }

    /// The architectural read of a register: `FL` packs the flags, `IP`
    /// is the instruction pointer, everything else is the backing byte.
    pub open spec fn read_reg(self, reg: RegisterRef) -> Word {
        match reg {
            RegisterRef::FL => self.flags.spec_word(),
            RegisterRef::IP => self.eip,
            _ => self.registers.spec_get(reg),
        }
    }

    /// The first fetched byte: the program byte at the instruction pointer.
    pub open spec fn fetch1(self) -> Word {
        self.program[self.eip as int]
    }

    /// The second fetched byte, at the next address modulo 256.
    pub open spec fn fetch2(self) -> Word {
        self.program[spec_addr_add(self.eip, 1) as int]
    }

    /// The decoding of the two bytes at the instruction pointer.
    pub open spec fn decoded(self) -> Result<Instruction, DecodeError> {
        spec_decode(self.fetch1(), self.fetch2())
    }

    /// Whether the machine rests on a HALT instruction.
    pub open spec fn halted(self) -> bool {
        self.decoded() == Ok::<Instruction, DecodeError>(Instruction::Nop(NopOpcode::Halt))
    }

    /// Whether execution can go no further: a HALT, or a fetch that does
    /// not decode.
    pub open spec fn stopped(self) -> bool {
        self.halted() || self.decoded() is Err
    }

    /// The state after the stack grows downward by one cell and `value`
    /// is written into the new top cell.
    pub open spec fn spec_push(self, value: Word) -> MachineV {
        let new_st = spec_addr_add(self.registers.spec_get(RegisterRef::ST), 255);
        MachineV {
            registers: self.registers.spec_set(RegisterRef::ST, new_st),
            memory: self.memory.update(new_st as int, value),
            ..self
        }
    }

    /// The state after the stack shrinks by one cell; the popped value is
    /// the byte that was at the top.
    pub open spec fn spec_pop_state(self) -> MachineV {
        let st = self.registers.spec_get(RegisterRef::ST);
        MachineV { registers: self.registers.spec_set(RegisterRef::ST, spec_addr_add(st, 1)), ..self }
    }

    /// The state after a call to `target`: the instruction pointer and the
    /// base pointer are pushed, the new frame base is the new stack top,
    /// and execution continues at `target`.
    pub open spec fn spec_call(self, target: Word) -> MachineV {
        let m1 = self.spec_push(self.eip);
        let m2 = m1.spec_push(m1.registers.spec_get(RegisterRef::BP));
        MachineV {
            registers: m2.registers.spec_set(
                RegisterRef::BP,
                m2.registers.spec_get(RegisterRef::ST),
            ),
            eip: target,
            ..m2
        }
    }

    /// The state after one decoded instruction executes.
    pub open spec fn spec_exec(self, i: Instruction) -> MachineV {
        let m = self;
        match i {
            Instruction::Load { dest, addr } => MachineV {
                registers: m.registers.spec_set(dest, m.memory[addr as int]),
                eip: spec_addr_add(m.eip, 2),
                ..m
            },
            Instruction::LoadP { dest, addr_src } => MachineV {
                registers: m.registers.spec_set(dest, m.memory[m.read_reg(addr_src) as int]),
                eip: spec_addr_add(m.eip, 2),
                ..m
            },
            Instruction::Store { src, addr } => MachineV {
                memory: m.memory.update(addr as int, m.read_reg(src)),
                eip: spec_addr_add(m.eip, 2),
                ..m
            },
            Instruction::StoreP { src, addr_src } => MachineV {
                memory: m.memory.update(m.read_reg(addr_src) as int, m.read_reg(src)),
                eip: spec_addr_add(m.eip, 2),
                ..m
            },
            Instruction::Mov { dest, src } => MachineV {
                registers: m.registers.spec_set(dest, m.read_reg(src)),
                eip: spec_addr_add(m.eip, 2),
                ..m
            },
            Instruction::MovC { dest, val } => MachineV {
                registers: m.registers.spec_set(dest, val),
                eip: spec_addr_add(m.eip, 2),
                ..m
            },
            Instruction::Jmp { flag, addr } => if m.flags.spec_get(flag) {
                MachineV { eip: addr, ..m }
            } else {
                MachineV { eip: spec_addr_add(m.eip, 2), ..m }
            },
            Instruction::JmpP { flag, addr_src } => if m.flags.spec_get(flag) {
                MachineV { eip: m.memory[m.read_reg(addr_src) as int], ..m }
            } else {
                MachineV { eip: spec_addr_add(m.eip, 2), ..m }
            },
            Instruction::JmpR { flag, diff } => if m.flags.spec_get(flag) {
                MachineV { eip: spec_addr_add(m.eip, diff), ..m }
            } else {
                MachineV { eip: spec_addr_add(m.eip, 2), ..m }
            },
            Instruction::JmpRP { flag, diff_src } => if m.flags.spec_get(flag) {
                MachineV { eip: spec_addr_add(m.eip, m.memory[m.read_reg(diff_src) as int]), ..m }
            } else {
                MachineV { eip: spec_addr_add(m.eip, 2), ..m }
            },
            Instruction::Stack(s) => match s {
                StackInstruction::Push { src } => {
                    let m1 = m.spec_push(m.read_reg(src));
                    MachineV { eip: spec_addr_add(m.eip, 2), ..m1 }
                },
                StackInstruction::Pop { dest } => {
                    let value = m.memory[m.registers.spec_get(RegisterRef::ST) as int];
                    let m1 = m.spec_pop_state();
                    MachineV {
                        registers: m1.registers.spec_set(dest, value),
                        eip: spec_addr_add(m.eip, 2),
                        ..m1
                    }
                },
                StackInstruction::Call { addr_reg } => m.spec_call(m.read_reg(addr_reg)),
                StackInstruction::CallC { addr } => m.spec_call(addr),
                StackInstruction::CallR { diff } => m.spec_call(spec_addr_add(m.eip, diff)),
                StackInstruction::Ret { src } => {
                    let bp = m.read_reg(RegisterRef::BP);
                    let m1 = MachineV {
                        registers: m.registers.spec_set(RegisterRef::ST, bp),
                        ..m
                    };
                    let stored_bp = m1.memory[m1.registers.spec_get(RegisterRef::ST) as int];
                    let m2 = m1.spec_pop_state();
                    let stored_ip = m2.memory[m2.registers.spec_get(RegisterRef::ST) as int];
                    let m3 = m2.spec_pop_state();
                    let m4 = MachineV {
                        registers: m3.registers.spec_set(RegisterRef::BP, stored_bp),
                        ..m3
                    };
                    let m5 = m4.spec_push(m4.read_reg(src));
                    MachineV { eip: spec_addr_add(stored_ip, 2), ..m5 }
                },
                StackInstruction::Load { dest, bp_diff } => {
                    let addr = spec_addr_add(m.read_reg(RegisterRef::BP), bp_diff);
                    MachineV {
                        registers: m.registers.spec_set(dest, m.memory[addr as int]),
                        eip: spec_addr_add(m.eip, 2),
                        ..m
                    }
                },
            },
            Instruction::Gpi { dest } => MachineV {
                registers: m.registers.spec_set(dest, m.reg_i),
                eip: spec_addr_add(m.eip, 2),
                ..m
            },
            Instruction::Gpo { src } => MachineV {
                reg_o: m.read_reg(src),
                eip: spec_addr_add(m.eip, 2),
                ..m
            },
            Instruction::Alu { op, arg1, arg2, out } => {
                let a = m.registers.spec_get(arg1);
                let b = m.registers.spec_get(arg2);
                MachineV {
                    registers: m.registers.spec_set(out, spec_alu_result(op, a, b)),
                    flags: spec_alu_flags(op, a, b),
                    eip: spec_addr_add(m.eip, 2),
                    ..m
                }
            },
            Instruction::Nop(NopOpcode::Nop) => MachineV { eip: spec_addr_add(m.eip, 2), ..m },
            Instruction::Nop(NopOpcode::Halt) => m,
        }
    }

    /// One step of the machine. On a decode failure the state is left
    /// unchanged: the machine has stopped at the failing address.
    pub open spec fn step_spec(self) -> MachineV {
        match self.decoded() {
            Ok(i) => self.spec_exec(i),
            Err(_) => self,
        }
    }

    /// The state after `n` steps.
    pub open spec fn steps(self, n: nat) -> MachineV
        decreases n,
    {
        if n == 0 {
            self
        } else {
            self.step_spec().steps((n - 1) as nat)
        }
    }

    /// Whether the machine eventually halts or hits a decode failure.
    pub open spec fn terminates(self) -> bool {
        exists|n: nat| self.steps(n).stopped()
    }
}

/// One step preserves well-formedness: no instruction changes the program
/// image or the length of the data memory.
pub proof fn lemma_step_wf(m: MachineV)
    requires
        m.wf(),
    ensures
        m.step_spec().wf(),
{
}

/// Taking one more step is the same as stepping the state reached so far.
pub proof fn lemma_steps_unfold_back(m: MachineV, n: nat)
    ensures
        m.steps(n + 1) == m.steps(n).step_spec(),
    decreases n,
{
    if n == 0 {
        assert(m.steps(1) == m.step_spec().steps(0));
    } else {
        lemma_steps_unfold_back(m.step_spec(), (n - 1) as nat);
        assert(m.steps(n + 1) == m.step_spec().steps(n));
        assert(m.steps(n) == m.step_spec().steps((n - 1) as nat));
    }
}

/// The LEG machine: program image, data memory, register file, flags,
/// instruction pointer and the two host ports.
#[derive(Clone, Debug)]
pub struct LegComputer {
    /// The instruction pointer: byte address of the next fetch.
    pub eip: Word,
    /// The 256-byte program image that instructions are fetched from.
    pub program: Vec<Word>,
    /// The 256-byte data memory that loads, stores and the stack use.
    pub memory: Vec<Word>,
    /// The flags of the most recent ALU step.
    pub flags: AluFlags,
    /// The register file backing bytes.
    pub registers: Registers,
    /// Host input port: the host writes it between steps.
    pub reg_i: Word,
    /// Host output port: the host reads it after any step.
    pub reg_o: Word,
}

impl View for LegComputer {
    type V = MachineV;

    open spec fn view(&self) -> MachineV {
        MachineV {
            eip: self.eip,
            program: self.program@,
            memory: self.memory@,
            flags: self.flags,
            registers: self.registers,
            reg_i: self.reg_i,
            reg_o: self.reg_o,
        }
    }
}

/// Addition of two bytes modulo 256.
pub fn addr_wrap(a: Word, b: Word) -> (r: Word)
    ensures
        r == spec_addr_add(a, b),
{
    ((a as u16 + b as u16) % 256) as u8
}

/// Truncate or zero-pad an image to exactly 256 bytes.
fn pad_to_256(image: Vec<Word>) -> (r: Vec<Word>)
    ensures
        r@ == spec_pad256(image@),
{
    let mut v = image;
    v.truncate(256);
    while v.len() < 256
        invariant
            v@.len() <= 256,
            image@.len() <= v@.len() || v@.len() == 256,
            forall|j: int| 0 <= j < v@.len() ==> v@[j] == spec_pad256(image@)[j],
        decreases 256 - v.len(),
    {
        v.push(0);
    }
    proof {
        assert(v@ =~= spec_pad256(image@));
    }
    v
}

impl LegComputer {
    /// A fresh machine: both images padded or truncated to 256 bytes, the
    /// instruction pointer at 0, every register and flag clear, and both
    /// host ports zero.
    pub fn new(program: Vec<Word>, memory: Vec<Word>) -> (r: LegComputer)
        ensures
            r@.wf(),
            r@.program == spec_pad256(program@),
            r@.memory == spec_pad256(memory@),
            r.eip == 0,
            r.registers == Registers::spec_zero(),
            r.flags == AluFlags::spec_clear(),
            r.reg_i == 0,
            r.reg_o == 0,
    {
        LegComputer {
            eip: 0,
            program: pad_to_256(program),
            memory: pad_to_256(memory),
            flags: AluFlags::new(),
            registers: Registers::new(),
            reg_i: 0,
            reg_o: 0,
        }
    }

    /// The two bytes at the instruction pointer (the second wraps).
    fn fetch(&self) -> (r: (Word, Word))
        requires
            self@.wf(),
        ensures
            r.0 == self@.fetch1(),
            r.1 == self@.fetch2(),
    {
        let b1 = self.program[self.eip as usize];
        let b2 = self.program[addr_wrap(self.eip, 1) as usize];
        (b1, b2)
    }

    /// The architectural read of a register: `FL` packs the current
    /// flags, `IP` reads the instruction pointer, everything else reads
    /// the register file.
    pub fn read_register(&self, register: &RegisterRef) -> (v: Word)
        ensures
            v == self@.read_reg(*register),
    {
        match *register {
            RegisterRef::FL => self.flags.as_word(),
            RegisterRef::IP => self.eip,
            _ => self.registers.get(register),
        }
    }

    /// Whether the machine rests on a HALT instruction. A fetch that does
    /// not decode is not halted; it is reported by `step`'s contract and
    /// stops `run`.
    pub fn is_halted(&self) -> (r: bool)
        requires
            self@.wf(),
        ensures
            r == self@.halted(),
    {
        let (b1, b2) = self.fetch();
        match Instruction::decode(b1, b2) {
            Ok(Instruction::Nop(NopOpcode::Halt)) => true,
            _ => false,
        }
    }

    /// Whether execution can go no further: HALT or a decode failure.
    fn is_stopped(&self) -> (r: bool)
        requires
            self@.wf(),
        ensures
            r == self@.stopped(),
    {
        let (b1, b2) = self.fetch();
        match Instruction::decode(b1, b2) {
            Ok(Instruction::Nop(NopOpcode::Halt)) => true,
            Ok(_) => false,
            Err(_) => true,
        }
    }

    /// Grow the stack downward and write `value` into the new top cell.
    fn stack_push(&mut self, value: Word)
        requires
            old(self)@.wf(),
        ensures
            final(self)@ == old(self)@.spec_push(value),
            final(self)@.wf(),
    {
        let st = self.registers.get(&RegisterRef::ST);
        let new_st = addr_wrap(st, 255);
        self.registers.set(RegisterRef::ST, new_st);
        self.memory[new_st as usize] = value;
    }

    /// Read the top stack cell and shrink the stack by one cell.
    fn stack_pop(&mut self) -> (r: Word)
        requires
            old(self)@.wf(),
        ensures
            r == old(self)@.memory[old(self)@.registers.spec_get(RegisterRef::ST) as int],
            final(self)@ == old(self)@.spec_pop_state(),
            final(self)@.wf(),
    {
        let st = self.registers.get(&RegisterRef::ST);
        let result = self.memory[st as usize];
        self.registers.set(RegisterRef::ST, addr_wrap(st, 1));
        result
    }

    /// Call to `addr`: push the instruction pointer, push the base
    /// pointer, set the base pointer to the new stack top, and jump.
    fn call(&mut self, addr: Word)
        requires
            old(self)@.wf(),
        ensures
            final(self)@ == old(self)@.spec_call(addr),
            final(self)@.wf(),
    {
        let ip = self.eip;
        self.stack_push(ip);
        let bp = self.registers.get(&RegisterRef::BP);
        self.stack_push(bp);
        let st = self.registers.get(&RegisterRef::ST);
        self.registers.set(RegisterRef::BP, st);
        self.eip = addr;
    }

    /// Execute a direct load.
    fn exec_load(&mut self, dest: RegisterRef, addr: Word)
        requires
            old(self)@.wf(),
        ensures
            final(self)@ == old(self)@.spec_exec(Instruction::Load { dest, addr }),
            final(self)@.wf(),
    {
        let v = self.memory[addr as usize];
        self.registers.set(dest, v);
        self.eip = addr_wrap(self.eip, 2);
    }

    /// Execute a pointer-indirect load.
    fn exec_loadp(&mut self, dest: RegisterRef, addr_src: RegisterRef)
        requires
            old(self)@.wf(),
        ensures
            final(self)@ == old(self)@.spec_exec(Instruction::LoadP { dest, addr_src }),
            final(self)@.wf(),
    {
        let a = self.read_register(&addr_src);
        let v = self.memory[a as usize];
        self.registers.set(dest, v);
        self.eip = addr_wrap(self.eip, 2);
    }

    /// Execute a direct store.
    fn exec_store(&mut self, src: RegisterRef, addr: Word)
        requires
            old(self)@.wf(),
        ensures
            final(self)@ == old(self)@.spec_exec(Instruction::Store { src, addr }),
            final(self)@.wf(),
    {
        let v = self.read_register(&src);
        self.memory[addr as usize] = v;
        self.eip = addr_wrap(self.eip, 2);
    }

    /// Execute a pointer-indirect store.
    fn exec_storep(&mut self, src: RegisterRef, addr_src: RegisterRef)
        requires
            old(self)@.wf(),
        ensures
            final(self)@ == old(self)@.spec_exec(Instruction::StoreP { src, addr_src }),
            final(self)@.wf(),
    {
        let a = self.read_register(&addr_src);
        let v = self.read_register(&src);
        self.memory[a as usize] = v;
        self.eip = addr_wrap(self.eip, 2);
    }

    /// Execute a register-to-register move.
    fn exec_mov(&mut self, dest: RegisterRef, src: RegisterRef)
        requires
            old(self)@.wf(),
        ensures
            final(self)@ == old(self)@.spec_exec(Instruction::Mov { dest, src }),
            final(self)@.wf(),
    {
        let v = self.read_register(&src);
        self.registers.set(dest, v);
        self.eip = addr_wrap(self.eip, 2);
    }

    /// Execute an immediate move.
    fn exec_movc(&mut self, dest: RegisterRef, val: Word)
        requires
            old(self)@.wf(),
        ensures
            final(self)@ == old(self)@.spec_exec(Instruction::MovC { dest, val }),
            final(self)@.wf(),
    {
        self.registers.set(dest, val);
        self.eip = addr_wrap(self.eip, 2);
    }

    /// Execute an absolute conditional jump.
    fn exec_jmp(&mut self, flag: AluFlagRef, addr: Word)
        requires
            old(self)@.wf(),
        ensures
            final(self)@ == old(self)@.spec_exec(Instruction::Jmp { flag, addr }),
            final(self)@.wf(),
    {
        if self.flags.get(&flag) {
            self.eip = addr;
        } else {
            self.eip = addr_wrap(self.eip, 2);
        }
    }

    /// Execute a pointer-indirect conditional jump.
    fn exec_jmpp(&mut self, flag: AluFlagRef, addr_src: RegisterRef)
        requires
            old(self)@.wf(),
        ensures
            final(self)@ == old(self)@.spec_exec(Instruction::JmpP { flag, addr_src }),
            final(self)@.wf(),
    {
        if self.flags.get(&flag) {
            let a = self.read_register(&addr_src);
            self.eip = self.memory[a as usize];
        } else {
            self.eip = addr_wrap(self.eip, 2);
        }
    }

    /// Execute a relative conditional jump.
    fn exec_jmpr(&mut self, flag: AluFlagRef, diff: Word)
        requires
            old(self)@.wf(),
        ensures
            final(self)@ == old(self)@.spec_exec(Instruction::JmpR { flag, diff }),
            final(self)@.wf(),
    {
        if self.flags.get(&flag) {
            self.eip = addr_wrap(self.eip, diff);
        } else {
            self.eip = addr_wrap(self.eip, 2);
        }
    }

    /// Execute a pointer-indirect relative conditional jump.
    fn exec_jmprp(&mut self, flag: AluFlagRef, diff_src: RegisterRef)
        requires
            old(self)@.wf(),
        ensures
            final(self)@ == old(self)@.spec_exec(Instruction::JmpRP { flag, diff_src }),
            final(self)@.wf(),
    {
        if self.flags.get(&flag) {
            let a = self.read_register(&diff_src);
            let d = self.memory[a as usize];
            self.eip = addr_wrap(self.eip, d);
        } else {
            self.eip = addr_wrap(self.eip, 2);
        }
    }

    /// Execute one stack instruction.
    #[verifier::rlimit(60)]
    fn exec_stack(&mut self, stack_ins: StackInstruction)
        requires
            old(self)@.wf(),
        ensures
            final(self)@ == old(self)@.spec_exec(Instruction::Stack(stack_ins)),
            final(self)@.wf(),
    {
        match stack_ins {
            StackInstruction::Push { src } => {
                let v = self.read_register(&src);
                self.stack_push(v);
                self.eip = addr_wrap(self.eip, 2);
            },
            StackInstruction::Pop { dest } => {
                let value = self.stack_pop();
                self.registers.set(dest, value);
                self.eip = addr_wrap(self.eip, 2);
            },
            StackInstruction::Call { addr_reg } => {
                let target = self.read_register(&addr_reg);
                self.call(target);
            },
            StackInstruction::CallC { addr } => {
                self.call(addr);
            },
            StackInstruction::CallR { diff } => {
                let target = addr_wrap(self.eip, diff);
                self.call(target);
            },
            StackInstruction::Ret { src } => {
                let bp = self.read_register(&RegisterRef::BP);
                self.registers.set(RegisterRef::ST, bp);
                let stored_bp = self.stack_pop();
                let stored_ip = self.stack_pop();
                self.registers.set(RegisterRef::BP, stored_bp);
                let v = self.read_register(&src);
                self.stack_push(v);
                self.eip = addr_wrap(stored_ip, 2);
            },
            StackInstruction::Load { dest, bp_diff } => {
                let bp = self.read_register(&RegisterRef::BP);
                let a = addr_wrap(bp, bp_diff);
                let v = self.memory[a as usize];
                self.registers.set(dest, v);
                self.eip = addr_wrap(self.eip, 2);
            },
        }
    }

    /// Execute a read of the host input port.
    fn exec_gpi(&mut self, dest: RegisterRef)
        requires
            old(self)@.wf(),
        ensures
            final(self)@ == old(self)@.spec_exec(Instruction::Gpi { dest }),
            final(self)@.wf(),
    {
        let v = self.reg_i;
        self.registers.set(dest, v);
        self.eip = addr_wrap(self.eip, 2);
    }

    /// Execute a write of the host output port.
    fn exec_gpo(&mut self, src: RegisterRef)
        requires
            old(self)@.wf(),
        ensures
            final(self)@ == old(self)@.spec_exec(Instruction::Gpo { src }),
            final(self)@.wf(),
    {
        self.reg_o = self.read_register(&src);
        self.eip = addr_wrap(self.eip, 2);
    }

    /// Execute one ALU operation: write the result and recompute all
    /// thirteen flags from this step's arguments and result.
    fn exec_alu(&mut self, op: AluOpcode, arg1: RegisterRef, arg2: RegisterRef, out: RegisterRef)
        requires
            old(self)@.wf(),
        ensures
            final(self)@ == old(self)@.spec_exec(Instruction::Alu { op, arg1, arg2, out }),
            final(self)@.wf(),
    {
        let a = self.registers.get(&arg1);
        let b = self.registers.get(&arg2);
        let result = alu_result(op, a, b);
        let new_flags = alu_flags(op, a, b, result);
        self.registers.set(out, result);
        self.flags = new_flags;
        self.eip = addr_wrap(self.eip, 2);
    }

    /// Fetch, decode and execute exactly one instruction.
    ///
    /// The caller must know that the two bytes at the instruction pointer
    /// decode; `run` checks this before each step and stops at a failing
    /// address, as the architecture prescribes.
    #[verifier::rlimit(100)]
    #[verifier::spinoff_prover]
    pub fn step(&mut self)
        requires
            old(self)@.wf(),
            !(old(self)@.decoded() is Err),
        ensures
            final(self)@ == old(self)@.step_spec(),
            final(self)@.wf(),
    {
        let (b1, b2) = self.fetch();
        let instruction = match Instruction::decode(b1, b2) {
            Ok(i) => i,
            Err(_) => unreached(),
        };

        match instruction {
            Instruction::Load { dest, addr } => self.exec_load(dest, addr),
            Instruction::LoadP { dest, addr_src } => self.exec_loadp(dest, addr_src),
            Instruction::Store { src, addr } => self.exec_store(src, addr),
            Instruction::StoreP { src, addr_src } => self.exec_storep(src, addr_src),
            Instruction::Mov { dest, src } => self.exec_mov(dest, src),
            Instruction::MovC { dest, val } => self.exec_movc(dest, val),
            Instruction::Jmp { flag, addr } => self.exec_jmp(flag, addr),
            Instruction::JmpP { flag, addr_src } => self.exec_jmpp(flag, addr_src),
            Instruction::JmpR { flag, diff } => self.exec_jmpr(flag, diff),
            Instruction::JmpRP { flag, diff_src } => self.exec_jmprp(flag, diff_src),
            Instruction::Stack(stack_ins) => self.exec_stack(stack_ins),
            Instruction::Gpi { dest } => self.exec_gpi(dest),
            Instruction::Gpo { src } => self.exec_gpo(src),
            Instruction::Alu { op, arg1, arg2, out } => self.exec_alu(op, arg1, arg2, out),
            Instruction::Nop(NopOpcode::Nop) => {
                self.eip = addr_wrap(self.eip, 2);
            },
            Instruction::Nop(NopOpcode::Halt) => {},
        }
    }

    /// Run until the machine halts or fetch hits a decode failure. The
    /// final state is some number of steps from the initial one.
    pub fn run(self) -> (r: LegComputer)
        requires
            self@.wf(),
            self@.terminates(),
        ensures
            r@.wf(),
            r@.stopped(),
            exists|n: nat| r@ == self@.steps(n),
    {
        let ghost start = self@;
        let ghost n: nat = choose|n: nat| start.steps(n).stopped();
        let ghost mut k: nat = 0nat;
        let mut current = self;
        while !current.is_stopped()
            invariant
                current@.wf(),
                current@ == start.steps(k),
                k <= n,
                start.steps(n).stopped(),
            decreases n - k,
        {
            proof {
                // If the loop were entered at k == n, the reached state
                // would already be stopped, contradicting the condition.
                assert(k < n);
            }
            current.step();
            proof {
                lemma_steps_unfold_back(start, k);
                k = k + 1nat;
            }
        }
        current
    }
}

} // verus!
