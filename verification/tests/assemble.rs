use half::f16;

use spirq_core::error::Error;
use spirq_core::parse::bin::SpirvHeader;
use spirq_core::spvasm::assembler::{Assembler, IdRef, Instruction, Operand};
use spirq_core::spvasm::isa::{InstructionSet, OpInfo};
use spirq_core::spvasm::operand_layout::EnumKind;
use spirq_core::spvasm::print_operand::EnumName;
use spirq_core::spvasm::tokenizer::Lit;

// The bits of a numeric literal as a float of the given width: integers are
// taken as they are, floating-point literals as their mantissa scaled by two
// to the power of their exponent in single precision.
fn float_bits(lit: &Lit, width: u32) -> u64 {
    let value = match lit {
        Lit::Int(i) => *i as f64,
        Lit::Float(mantissa, exponent) => {
            let f: f64 = mantissa.parse().unwrap();
            ((f as f32) * 2.0f32.powi(*exponent)) as f64
        }
        Lit::String(_) => panic!("not a numeric literal"),
    };
    match width {
        16 => f16::from_f64(value).to_bits() as u64,
        32 => (value as f32).to_bits() as u64,
        _ => value.to_bits(),
    }
}

// The integer a floating-point literal truncates to, in single precision.
fn float_int(lit: &Lit) -> i64 {
    match lit {
        Lit::Float(mantissa, exponent) => {
            let f: f64 = mantissa.parse().unwrap();
            ((f as f32) * 2.0f32.powi(*exponent)) as i64
        }
        _ => panic!("not a floating-point literal"),
    }
}

fn op(name: &str, opcode: u32, has_result_type_id: bool, has_result_id: bool) -> OpInfo {
    OpInfo { name: name.to_string(), opcode, has_result_type_id, has_result_id }
}

fn enumerant(kind: EnumKind, value: u32, name: &str) -> EnumName {
    EnumName { kind, value, name: name.to_string() }
}

fn isa() -> InstructionSet {
    InstructionSet {
        ops: vec![
            op("OpNop", 0, false, false),
            op("OpSource", 3, false, false),
            op("OpName", 5, false, false),
            op("OpMemoryModel", 14, false, false),
            op("OpCapability", 17, false, false),
            op("OpTypeVoid", 19, false, true),
            op("OpTypeInt", 21, false, true),
            op("OpTypeFloat", 22, false, true),
            op("OpConstant", 43, true, true),
            op("OpIAdd", 128, true, true),
        ],
        enums: vec![
            enumerant(EnumKind::Capability, 1, "Shader"),
            enumerant(EnumKind::AddressingModel, 0, "Logical"),
            enumerant(EnumKind::MemoryModel, 1, "GLSL450"),
            enumerant(EnumKind::SourceLanguage, 2, "GLSL"),
        ],
    }
}

fn instr(result: Option<u32>, opcode: u32, operands: Vec<Operand>) -> Instruction {
    Instruction { result_id: result.map(IdRef::Id), opcode, operands }
}

fn id(x: u32) -> Operand {
    Operand::IdRef(IdRef::Id(x))
}

fn ident(s: &str) -> Operand {
    Operand::Ident(s.to_string())
}

fn lit(i: i64) -> Operand {
    Operand::Literal(Lit::Int(i))
}

fn header() -> SpirvHeader {
    SpirvHeader::new(0x00010500, 7)
}

#[test]
fn parse_reads_instructions_in_order() {
    let text = "; module\n%1 = OpTypeInt 32 1 ; int\n\nOpName %x \"x\"\n%y = OpIAdd %1 %x 7\n";
    let instrs = Assembler::new().parse(text, &isa()).unwrap();
    assert_eq!(instrs.len(), 3);
    assert_eq!(instrs[0].result_id, Some(IdRef::Id(1)));
    assert_eq!(instrs[0].opcode, 21);
    assert!(matches!(instrs[0].operands[..], [Operand::Literal(Lit::Int(32)), Operand::Literal(Lit::Int(1))]));
    assert_eq!(instrs[1].result_id, None);
    assert_eq!(instrs[1].opcode, 5);
    assert!(matches!(&instrs[1].operands[0], Operand::IdRef(IdRef::Name(n)) if n == "x"));
    assert!(matches!(&instrs[1].operands[1], Operand::Literal(Lit::String(s)) if s == "x"));
    assert_eq!(instrs[2].result_id, Some(IdRef::Name("y".to_string())));
    assert_eq!(instrs[2].opcode, 128);
    assert_eq!(instrs[2].operands.len(), 3);
}

#[test]
fn parse_errors() {
    let a = Assembler::new();
    assert!(a.parse("", &isa()).unwrap().is_empty());
    assert!(a.parse("; only a comment\n\n", &isa()).unwrap().is_empty());
    assert_eq!(a.parse("OpFoo", &isa()).err(), Some(Error::UnknownOpName));
    assert_eq!(a.parse("%1 OpNop", &isa()).err(), Some(Error::ExpectedEq));
    assert_eq!(a.parse("= OpNop", &isa()).err(), Some(Error::UnexpectedToken));
    assert_eq!(a.parse("%1 = \n", &isa()).err(), Some(Error::ExpectedOpcode));
    assert_eq!(a.parse("OpName %1 =", &isa()).err(), Some(Error::ExpectedOperand));
}

#[test]
fn float_constants_are_encoded_by_width() {
    let mut a = Assembler::new();
    a.assemble_op_type_float(&instr(Some(4), 22, vec![lit(32)])).unwrap();
    a.assemble_op_type_float(&instr(Some(5), 22, vec![lit(64)])).unwrap();
    a.assemble_op_type_float(&instr(Some(6), 22, vec![lit(16)])).unwrap();
    let c = |ty: u32, v: Operand| instr(Some(10), 43, vec![id(ty), v]);
    assert_eq!(a.assemble_op_constant(&c(4, lit(1)), &float_bits, &float_int).unwrap(), vec![0x0004002b, 4, 10, 0x3f800000]);
    let half = Operand::Literal(Lit::Float("1.5".to_string(), 0));
    assert_eq!(a.assemble_op_constant(&c(4, half.clone()), &float_bits, &float_int).unwrap(), vec![0x0004002b, 4, 10, 0x3fc00000]);
    assert_eq!(
        a.assemble_op_constant(&c(5, lit(1)), &float_bits, &float_int).unwrap(),
        vec![0x0005002b, 5, 10, 0, 0x3ff00000]
    );
    assert_eq!(a.assemble_op_constant(&c(6, half), &float_bits, &float_int).unwrap(), vec![0x0004002b, 6, 10, 0x3e00]);
    assert_eq!(
        a.assemble_op_constant(&c(4, Operand::Literal(Lit::String("x".to_string()))), &float_bits, &float_int),
        Err(Error::ExpectedNumericLiteral)
    );
}

#[test]
fn general_instructions() {
    let mut a = Assembler::new();
    let isa = isa();
    assert_eq!(a.assemble_general_instr(&instr(None, 17, vec![ident("Shader")]), &isa, &float_bits).unwrap(), vec![0x00020011, 1]);
    assert_eq!(
        a.assemble_general_instr(&instr(None, 14, vec![ident("Logical"), ident("GLSL450")]), &isa, &float_bits).unwrap(),
        vec![0x0003000e, 0, 1]
    );
    assert_eq!(
        a.assemble_general_instr(&instr(Some(9), 128, vec![id(3), id(4), id(5)]), &isa, &float_bits).unwrap(),
        vec![0x00050080, 3, 9, 4, 5]
    );
    assert_eq!(a.bound(), 4);
    assert_eq!(
        a.assemble_general_instr(&instr(None, 3, vec![ident("GLSL"), lit(-1)]), &isa, &float_bits).unwrap(),
        vec![0x00030003, 2, 0xffffffff]
    );
    assert_eq!(
        a.assemble_general_instr(
            &instr(None, 3, vec![ident("GLSL"), Operand::Literal(Lit::Float("1.5".to_string(), 0))]),
            &isa,
            &float_bits
        )
        .unwrap(),
        vec![0x00030003, 2, 0x3fc00000]
    );
    assert_eq!(
        a.assemble_general_instr(&instr(None, 5, vec![id(1), Operand::Literal(Lit::String("ab".to_string()))]), &isa, &float_bits)
            .unwrap(),
        vec![0x00030005, 1, 0x00006261]
    );
}

#[test]
fn general_instruction_errors() {
    let mut a = Assembler::new();
    let isa = isa();
    assert_eq!(a.assemble_general_instr(&instr(None, 9999, vec![]), &isa, &float_bits), Err(Error::UnknownOpcode(9999)));
    assert_eq!(a.assemble_general_instr(&instr(None, 1, vec![]), &isa, &float_bits), Err(Error::UnsupportedOpcode(1)));
    assert_eq!(
        a.assemble_general_instr(&instr(Some(2), 128, vec![ident("x")]), &isa, &float_bits),
        Err(Error::ExpectedResultTypeId(128))
    );
    assert_eq!(a.assemble_general_instr(&instr(None, 19, vec![]), &isa, &float_bits), Err(Error::ExpectedResultId(19)));
    assert_eq!(a.assemble_general_instr(&instr(Some(2), 0, vec![]), &isa, &float_bits), Err(Error::UnexpectedResultId(0)));
    assert_eq!(
        a.assemble_general_instr(&instr(None, 3, vec![ident("GLSL"), lit(4294967296)]), &isa, &float_bits),
        Err(Error::LiteralOutOfRange)
    );
    assert_eq!(
        a.assemble_general_instr(&instr(None, 3, vec![ident("GLSL"), lit(-2147483649)]), &isa, &float_bits),
        Err(Error::LiteralOutOfRange)
    );
    assert_eq!(a.assemble_general_instr(&instr(None, 17, vec![ident("Kernel")]), &isa, &float_bits), Err(Error::UnknownEnumerantName));
    assert_eq!(
        a.assemble_general_instr(&instr(None, 17, vec![lit(1), ident("Shader")]), &isa, &float_bits),
        Err(Error::UnknownOperandIndex(17, 1))
    );
    assert_eq!(
        a.assemble_general_instr(&instr(None, 0, vec![ident("Shader")]), &isa, &float_bits),
        Err(Error::NotEnumOperand(0, 0))
    );
}

#[test]
fn special_instructions_are_told_apart() {
    let mut a = Assembler::new();
    let isa = isa();
    assert_eq!(a.assemble_special_instr(&instr(None, 17, vec![ident("Shader")]), &isa, &float_bits, &float_int), Ok(None));
    assert_eq!(
        a.assemble_special_instr(&instr(Some(1), 21, vec![lit(32), lit(0)]), &isa, &float_bits, &float_int),
        Ok(Some(vec![0x00040015, 1, 32, 0]))
    );
    assert_eq!(a.assemble_instr(&instr(Some(2), 43, vec![id(1), lit(7)]), &isa, &float_bits, &float_int), Ok(vec![0x0004002b, 1, 2, 7]));
    assert_eq!(a.assemble_instr(&instr(None, 17, vec![ident("Shader")]), &isa, &float_bits, &float_int), Ok(vec![0x00020011, 1]));
}

#[test]
fn assemble_module() {
    let text = "OpCapability Shader\n\
                OpMemoryModel Logical GLSL450\n\
                %int = OpTypeInt 32 1\n\
                %float = OpTypeFloat 32\n\
                %one = OpConstant %int 1\n\
                %half = OpConstant %float 0.5\n\
                %sum = OpIAdd %int %one %one\n";
    let spv = Assembler::new().assemble(text, header(), &isa(), &float_bits, &float_int).unwrap();
    let expected: Vec<u32> = vec![
        0x07230203, 0x00010500, 7, 6, 0,
        0x00020011, 1,
        0x0003000e, 0, 1,
        0x00040015, 1, 32, 1,
        0x00030016, 2, 32,
        0x0004002b, 1, 3, 1,
        0x0004002b, 2, 4, 0x3f000000,
        0x00050080, 1, 5, 3, 3,
    ];
    assert_eq!(spv.words(), &expected[..]);
}

#[test]
fn assemble_integer_constant_from_float_literal() {
    let text = "%int = OpTypeInt 32 1\n%x = OpConstant %int 2.5\n%y = OpConstant %int -7.9\n";
    let spv = Assembler::new().assemble(text, header(), &isa(), &float_bits, &float_int).unwrap();
    let expected: Vec<u32> = vec![
        0x07230203, 0x00010500, 7, 4, 0,
        0x00040015, 1, 32, 1,
        0x0004002b, 1, 2, 2,
        0x0004002b, 1, 3, 0xfffffff9,
    ];
    assert_eq!(spv.words(), &expected[..]);
}

#[test]
fn assemble_binds_names_around_numeric_ids() {
    let text = "%0 = OpTypeVoid\n%2 = OpTypeInt 32 0\n%a = OpTypeFloat 32\n%b = OpConstant %2 5\n%c = OpIAdd %2 %b %a\n";
    let mut a = Assembler::new();
    let spv = a.assemble(text, header(), &isa(), &float_bits, &float_int).unwrap();
    let expected: Vec<u32> = vec![
        0x07230203, 0x00010500, 7, 5, 0,
        0x00020013, 0,
        0x00040015, 2, 32, 0,
        0x00030016, 1, 32,
        0x0004002b, 2, 3, 5,
        0x00050080, 2, 4, 3, 1,
    ];
    assert_eq!(spv.words(), &expected[..]);
    assert_eq!(a.acquire_id("a"), 1);
    assert_eq!(a.acquire_id("d"), 5);
}

#[test]
fn assemble_errors() {
    let isa = isa();
    assert_eq!(Assembler::new().assemble("OpFoo\n", header(), &isa, &float_bits, &float_int).err(), Some(Error::UnknownOpName));
    assert_eq!(
        Assembler::new().assemble("OpCapability Kernel\n", header(), &isa, &float_bits, &float_int).err(),
        Some(Error::UnknownEnumerantName)
    );
    assert_eq!(
        Assembler::new().assemble("%1 = OpConstant %2 1\n", header(), &isa, &float_bits, &float_int).err(),
        Some(Error::UnknownResultType(2))
    );
    assert_eq!(
        Assembler::new().assemble("%x = OpTypeInt 32 0\n%x = OpTypeInt 8 0\n", header(), &isa, &float_bits, &float_int).err(),
        Some(Error::DuplicateResultId(1))
    );
}
