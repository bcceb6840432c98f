//! SPIR-V binary and instruction parsing.
pub mod bin;
pub mod laws;
pub mod instr;
pub mod words;

pub use bin::{SpirvBinary, SpirvHeader};
pub use instr::{Instr, Instrs, Instruction, InstructionBuilder, Operands};
