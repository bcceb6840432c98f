//! SPIR-V assembly: the disassembler, which prints a module line by line,
//! and the assembler, which tokenizes and reads assembly text, binds names
//! to ids and encodes the instructions; and the operand tables both use.
pub mod asm_parse;
pub mod assemble;
pub mod assembler;
pub mod auto_name;
pub mod decorate_enum;
pub mod dis_line;
pub mod disassembler;
pub mod encode;
pub mod isa;
pub mod operand_enum;
pub mod operand_layout;
pub mod print;
pub mod print_operand;
pub mod tokenizer;
pub mod ty_reg;

pub use decorate_enum::decorate_parameter_enum_type;
pub use disassembler::Disassembler;
pub use operand_enum::operand_enum_type;
