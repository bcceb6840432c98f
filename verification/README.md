# spirq_core

SPIR-V binary access with verified contracts: reading modules and their
instructions, describing types and their memory layout, evaluating
specialization constants, and a SPIR-V assembler and disassembler.

Layout:

- `src/` is the verified library. `parse` reads modules and instructions,
  `ty` and `var` describe types, variables and layouts, `evaluator` folds
  constant expressions, `func` and `interface` hold the function and
  interface registries, and `spvasm` holds the assembler (`tokenizer`,
  `asm_parse`, `assembler`, `encode`, `assemble`) and the disassembler
  (`disassembler`, `dis_line`, `print_operand`, `operand_layout`), with
  `auto_name` naming ids from types, constants and debug names.
- `tests/` exercises the library on concrete modules and assembly texts.
- `app/` is a command-line front end, and the floating-point helpers the
  library leaves to its caller.

Floating-point values are never computed in the library. The assembler
takes a float encoder (the bits of a numeric literal as a float of a given
width) and a float converter (the integer a floating-point literal written
for an integer constant truncates to), and the disassembler a float printer
(the text of a float from its bits); their results are placed exactly where
the contracts say. The
instruction names and enumerant names are given to the assembler and the
disassembler as an `InstructionSet`.
