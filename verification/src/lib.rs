//! A verified simulator for the LEG toy computer: an 8-bit instruction set
//! with a two-byte wire encoding, a line-oriented assembler/disassembler,
//! and a cycle-accurate interpreter with an ALU, a downward-growing stack,
//! and call/return discipline.

pub mod alu;
pub mod assembler;
pub mod disassembler;
pub mod isa;
pub mod laws;
pub mod machine;
pub mod registers;
pub mod text;

pub use alu::AluFlags;
pub use assembler::assemble_program;
pub use assembler::generate_code;
pub use assembler::from_source;
pub use assembler::AsmError;
pub use disassembler::disassemble;
pub use disassembler::disassemble_instruction;
pub use isa::AluFlagRef;
pub use isa::AluOpcode;
pub use isa::DecodeError;
pub use isa::Instruction;
pub use isa::NopOpcode;
pub use isa::Opcode;
pub use isa::RegisterRef;
pub use isa::StackInstruction;
pub use isa::StackOpcode;
pub use isa::Word;
pub use machine::LegComputer;
pub use registers::Registers;
