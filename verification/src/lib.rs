//! Structured SPIR-V binary access: instruction streams, type descriptions,
//! variable locators, constant evaluation, and a SPIR-V assembler and
//! disassembler.
pub mod asm_tables;
pub mod constant;
pub mod dis;
pub mod error;
pub mod eval_laws;
pub mod evaluator;
pub mod func;
pub mod ids;
pub mod interface;
pub mod parse;
pub mod shader_source;
pub mod text;
pub mod spv;
pub mod spvasm;
pub mod sys;
pub mod ty;
pub mod var;
