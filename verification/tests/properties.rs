use leg_simulator::assemble_program;
use leg_simulator::disassemble;
use leg_simulator::generate_code;
use leg_simulator::AluFlagRef;
use leg_simulator::AluOpcode;
use leg_simulator::AsmError;
use leg_simulator::DecodeError;
use leg_simulator::Instruction;
use leg_simulator::LegComputer;
use leg_simulator::NopOpcode;
use leg_simulator::RegisterRef;
use leg_simulator::StackInstruction;
use leg_simulator::Word;

fn sample_instructions() -> Vec<Instruction> {
    vec![
        Instruction::Load {
            dest: RegisterRef::A,
            addr: 7,
        },
        Instruction::LoadP {
            dest: RegisterRef::B,
            addr_src: RegisterRef::D,
        },
        Instruction::Store {
            src: RegisterRef::C,
            addr: 200,
        },
        Instruction::StoreP {
            src: RegisterRef::FL,
            addr_src: RegisterRef::ST,
        },
        Instruction::Mov {
            dest: RegisterRef::C,
            src: RegisterRef::IP,
        },
        Instruction::MovC {
            dest: RegisterRef::D,
            val: 255,
        },
        Instruction::Jmp {
            flag: AluFlagRef::True,
            addr: 44,
        },
        Instruction::JmpP {
            flag: AluFlagRef::EqZero,
            addr_src: RegisterRef::A,
        },
        Instruction::JmpR {
            flag: AluFlagRef::OverflowUnsigned,
            diff: 236,
        },
        Instruction::JmpRP {
            flag: AluFlagRef::LessOrEqualSigned,
            diff_src: RegisterRef::B,
        },
        Instruction::Stack(StackInstruction::Push {
            src: RegisterRef::BP,
        }),
        Instruction::Stack(StackInstruction::Pop {
            dest: RegisterRef::A,
        }),
        Instruction::Stack(StackInstruction::Call {
            addr_reg: RegisterRef::D,
        }),
        Instruction::Stack(StackInstruction::CallC { addr: 50 }),
        Instruction::Stack(StackInstruction::CallR { diff: 12 }),
        Instruction::Stack(StackInstruction::Ret {
            src: RegisterRef::C,
        }),
        Instruction::Stack(StackInstruction::Load {
            dest: RegisterRef::B,
            bp_diff: 251,
        }),
        Instruction::Gpi {
            dest: RegisterRef::A,
        },
        Instruction::Gpo {
            src: RegisterRef::FL,
        },
        Instruction::Alu {
            op: AluOpcode::Sub,
            arg1: RegisterRef::A,
            arg2: RegisterRef::B,
            out: RegisterRef::C,
        },
        Instruction::Nop(NopOpcode::Nop),
        Instruction::Nop(NopOpcode::Halt),
    ]
}

// Round-trip: decoding the encoding of a well-formed instruction yields
// the instruction back.
#[test]
fn encode_decode_round_trip() {
    for ins in sample_instructions() {
        let (b1, b2) = ins.encode();
        assert_eq!(Instruction::decode(b1, b2), Ok(ins));
    }
}

#[test]
fn encode_known_bytes() {
    assert_eq!(
        Instruction::MovC {
            dest: RegisterRef::A,
            val: 100
        }
        .encode(),
        (0x60, 100)
    );
    assert_eq!(Instruction::Nop(NopOpcode::Halt).encode(), (0x00, 0x00));
    assert_eq!(Instruction::Nop(NopOpcode::Nop).encode(), (0x00, 0xff));
    assert_eq!(
        Instruction::Alu {
            op: AluOpcode::Add,
            arg1: RegisterRef::A,
            arg2: RegisterRef::B,
            out: RegisterRef::C
        }
        .encode(),
        (0xD0, 0b00_01_0010)
    );
    assert_eq!(
        Instruction::Stack(StackInstruction::Push {
            src: RegisterRef::ST
        })
        .encode(),
        (0xB1, 13)
    );
}

#[test]
fn decode_error_variants() {
    assert_eq!(
        Instruction::decode(0xE0, 0),
        Err(DecodeError::InvalidOpcode(0xE))
    );
    assert_eq!(
        Instruction::decode(0x14, 0),
        Err(DecodeError::InvalidRegister(4))
    );
    assert_eq!(
        Instruction::decode(0xD7, 0),
        Err(DecodeError::InvalidAluOpcode(7))
    );
    assert_eq!(
        Instruction::decode(0x7D, 0),
        Err(DecodeError::InvalidFlag(13))
    );
    assert_eq!(
        Instruction::decode(0xB3, 0),
        Err(DecodeError::InvalidStackOpcode(3))
    );
    assert_eq!(
        Instruction::decode(0x00, 0x55),
        Err(DecodeError::InvalidNopOpcode(0x55))
    );
    assert_eq!(
        Instruction::decode(0xC2, 0),
        Err(DecodeError::InvalidGpioOpcode(2))
    );
}

// Idempotent assembly: disassembling and re-assembling a program is the
// identity, and the canonical text matches the mnemonic table.
#[test]
fn disassemble_assemble_round_trip() {
    let program = sample_instructions();
    let text = disassemble(&program);
    let reparsed = assemble_program(&text).unwrap();
    assert_eq!(reparsed, program);
}

#[test]
fn disassemble_canonical_text() {
    let program = vec![
        Instruction::MovC {
            dest: RegisterRef::A,
            val: 0,
        },
        Instruction::Jmp {
            flag: AluFlagRef::True,
            addr: 8,
        },
    ];
    assert_eq!(disassemble(&program), "MOVC 0 => A\nJMP T ? 8\n");
}

#[test]
fn assemble_error_variants() {
    assert!(matches!(
        assemble_program("FOO"),
        Err(AsmError::UnknownInstruction { .. })
    ));
    assert!(matches!(
        assemble_program("MOVC x => A"),
        Err(AsmError::NotANumber { .. })
    ));
    assert!(matches!(
        assemble_program("MOVC 300 => A"),
        Err(AsmError::NumberOutOfRange { .. })
    ));
    assert!(matches!(
        assemble_program("MOVC -129 => A"),
        Err(AsmError::NumberOutOfRange { .. })
    ));
    assert!(matches!(
        assemble_program("PUSH Q"),
        Err(AsmError::UnknownRegister { .. })
    ));
    assert!(matches!(
        assemble_program("SLOAD 1 => FL"),
        Err(AsmError::RegisterNotGeneral { .. })
    ));
    assert!(matches!(
        assemble_program("JMP X ? 4"),
        Err(AsmError::UnknownFlag { .. })
    ));
    assert!(matches!(
        assemble_program("ALU FOO A B => C"),
        Err(AsmError::UnknownAluOp { .. })
    ));
}

#[test]
fn assemble_negative_literals() {
    let program = assemble_program("JMPR Z ? -20").unwrap();
    assert_eq!(
        program,
        vec![Instruction::JmpR {
            flag: AluFlagRef::EqZero,
            diff: 236
        }]
    );
    let program = assemble_program("MOVC -1 => A").unwrap();
    assert_eq!(
        program,
        vec![Instruction::MovC {
            dest: RegisterRef::A,
            val: 255
        }]
    );
}

#[test]
fn assemble_empty_source() {
    assert_eq!(assemble_program("").unwrap(), vec![]);
    assert_eq!(generate_code(&assemble_program("  \n\n # only a comment\n").unwrap()), vec![]);
}

// ip invariant: a non-branch, non-halt instruction advances the
// instruction pointer by exactly two.
#[test]
fn step_advances_ip_by_two() {
    let mut computer: LegComputer = "MOVC 9 => A\nNOP\nHALT".parse().unwrap();
    assert_eq!(computer.eip, 0);
    computer.step();
    assert_eq!(computer.eip, 2);
    computer.step();
    assert_eq!(computer.eip, 4);
    assert!(computer.is_halted());
}

fn run_alu(op: &str, a: Word, b: Word) -> LegComputer {
    let source = format!(
        "MOVC {} => A\nMOVC {} => B\nALU {} A B => C\nHALT",
        a, b, op
    );
    let computer: LegComputer = source.as_str().parse().unwrap();
    computer.run()
}

#[test]
fn alu_results_exact() {
    assert_eq!(run_alu("ADD", 200, 100).registers.get(&RegisterRef::C), 44);
    assert_eq!(run_alu("ADDC", 200, 100).registers.get(&RegisterRef::C), 45);
    assert_eq!(run_alu("INCR", 255, 0).registers.get(&RegisterRef::C), 0);
    assert_eq!(run_alu("DECR", 0, 0).registers.get(&RegisterRef::C), 255);
    assert_eq!(run_alu("XOR", 0b1100, 0b1010).registers.get(&RegisterRef::C), 0b0110);
    assert_eq!(run_alu("NEG", 7, 0b1010).registers.get(&RegisterRef::C), 0b11110101);
    assert_eq!(run_alu("SUB", 5, 7).registers.get(&RegisterRef::C), 254);
    assert_eq!(run_alu("OR", 0b1100, 0b1010).registers.get(&RegisterRef::C), 0b1110);
    assert_eq!(run_alu("AND", 0b1100, 0b1010).registers.get(&RegisterRef::C), 0b1000);
    assert_eq!(run_alu("NAND", 0b1100, 0b1010).registers.get(&RegisterRef::C), 0b11110111);
    assert_eq!(run_alu("NOR", 0b1100, 0b1010).registers.get(&RegisterRef::C), 0b11110001);
    assert_eq!(run_alu("SHIFTL", 0b1011, 2).registers.get(&RegisterRef::C), 0b101100);
    assert_eq!(run_alu("SHIFTL", 0x81, 1).registers.get(&RegisterRef::C), 0x02);
    assert_eq!(run_alu("SHIFTR", 0b10110000, 2).registers.get(&RegisterRef::C), 0b11101100);
    assert_eq!(run_alu("SHIFTR", 0b01110000, 2).registers.get(&RegisterRef::C), 0b00011100);
    // A shift count is taken modulo eight.
    assert_eq!(run_alu("SHIFTL", 0b1011, 8).registers.get(&RegisterRef::C), 0b1011);
    assert_eq!(run_alu("ECHO", 42, 7).registers.get(&RegisterRef::C), 42);
}

#[test]
fn alu_overflow_flags() {
    let c = run_alu("ADD", 200, 100);
    assert!(c.flags.overflow_unsigned);
    assert!(!c.flags.overflow_signed);
    let c = run_alu("ADD", 100, 100);
    assert!(!c.flags.overflow_unsigned);
    assert!(c.flags.overflow_signed);
    let c = run_alu("SUB", 5, 7);
    assert!(!c.flags.overflow_unsigned);
    assert!(!c.flags.overflow_signed);
    let c = run_alu("SUB", 7, 5);
    assert!(c.flags.overflow_unsigned);
    assert!(!c.flags.overflow_signed);
    // Non-arithmetic operations clear the overflow flags of that step.
    let c = run_alu("ADD", 200, 100);
    assert!(c.flags.overflow_unsigned);
    let source = "MOVC 200 => A\nMOVC 100 => B\nALU ADD A B => C\nALU OR A B => D\nHALT";
    let c: LegComputer = source.parse().unwrap();
    let c = c.run();
    assert!(!c.flags.overflow_unsigned);
}

// Flag exclusivity: after any ALU operation, each comparison flag and
// its complement disagree.
#[test]
fn alu_flag_exclusivity() {
    for (a, b) in [(5u8, 5u8), (7, 3), (3, 7), (200, 100), (100, 200), (0, 0)] {
        let c = run_alu("ADD", a, b);
        assert!(c.flags.equal != c.flags.not_equal);
        assert!(c.flags.greater_than != c.flags.less_or_equal);
        assert!(c.flags.greater_than_signed != c.flags.less_or_equal_signed);
        assert!(c.flags.greater_or_equal != c.flags.less_than);
        assert!(c.flags.greater_or_equal_signed != c.flags.less_than_signed);
    }
}

#[test]
fn alu_signed_comparisons() {
    // 200 is -56 signed, so it is below 100 signed but above unsigned.
    let c = run_alu("ECHO", 200, 100);
    assert!(c.flags.greater_than);
    assert!(!c.flags.greater_than_signed);
    assert!(c.flags.less_than_signed);
    assert_eq!(c.flags.eq_zero, false);
}

// Stack conservation: PUSH then POP restores ST and moves the pushed
// value into the destination register.
#[test]
fn push_pop_conservation() {
    let source = "MOVC 77 => A\nPUSH A\nPOP B\nHALT";
    let computer: LegComputer = source.parse().unwrap();
    let computer = computer.run();
    assert_eq!(computer.read_register(&RegisterRef::ST), 0);
    assert_eq!(computer.read_register(&RegisterRef::B), 77);
}

// Call/Ret discipline: after CALLC and a matching RET, execution resumes
// after the call, BP is restored, and the top cell holds read(src).
#[test]
fn callc_ret_discipline() {
    let source = "CALLC 6\nHALT\nHALT\nMOVC 31 => A\nRET A";
    let computer: LegComputer = source.parse().unwrap();
    let computer = computer.run();
    assert_eq!(computer.eip, 2);
    assert_eq!(computer.read_register(&RegisterRef::BP), 0);
    let st = computer.read_register(&RegisterRef::ST);
    assert_eq!(st, 255);
    assert_eq!(computer.memory[st as usize], 31);
}

#[test]
fn gpio_ports() {
    let source = "GPI A <=\nALU INCR A A => B\nGPO B =>\nHALT";
    let mut computer: LegComputer = source.parse().unwrap();
    computer.reg_i = 41;
    let computer = computer.run();
    assert_eq!(computer.reg_o, 42);
}

#[test]
fn run_stops_at_decode_failure() {
    // 0xE0 is no opcode: the machine stops at the failing address.
    let program = vec![0x60, 5, 0xE0, 0];
    let computer = LegComputer::new(program, vec![0; 256]).run();
    assert_eq!(computer.eip, 2);
    assert!(!computer.is_halted());
    assert_eq!(computer.read_register(&RegisterRef::A), 5);
}
