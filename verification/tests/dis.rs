use std::collections::HashMap;

use spirq_core::dis::Disassembler;
use spirq_core::error::Error;
use spirq_core::parse::instr::Operands;
use spirq_core::spvasm::isa::{InstructionSet, OpInfo};
use spirq_core::spvasm::operand_layout::EnumKind;
use spirq_core::spvasm::print_operand::EnumName;
use spirq_core::ty::{ScalarType, Type, TypeRegistry};
use spirq_core::parse::bin::{SpirvBinary, SpirvHeader};
use spirq_core::spvasm::assembler::Assembler;
use spirq_core::spvasm::auto_name::collect_names;
use spirq_core::spvasm::disassembler::Disassembler as AsmDisassembler;

#[test]
fn lib_test_simple() {
    let spv = [0x07230203, 0x00010000, 0x00000008, 0x0000001, 0x00000000]
        .iter()
        .map(|x| *x as u32)
        .collect::<Vec<_>>();
    let spv = SpirvBinary::from(spv);
    let out = Disassembler {}.apply(&spv);
    assert_eq!(out, "; SPIR-V\n; Version: 1.0\n; Generator: 8\n; Bound: 1\n; Schema: 0\n");
}

#[test]
fn header_summary_is_hexadecimal() {
    let spv = SpirvBinary::from(vec![0x07230203u32, 0x00010005, 0x0008000b, 0x1f, 0x10]);
    let out = Disassembler {}.apply(&spv);
    assert_eq!(out, "; SPIR-V\n; Version: 1.5\n; Generator: 8000b\n; Bound: 1f\n; Schema: 10\n");
}

fn op(name: &str, opcode: u32, has_result_type_id: bool, has_result_id: bool) -> OpInfo {
    OpInfo { name: name.to_string(), opcode, has_result_type_id, has_result_id }
}

fn isa() -> InstructionSet {
    InstructionSet {
        ops: vec![
            op("OpNop", 0, false, false),
            op("OpName", 5, false, false),
            op("OpTypeInt", 21, false, true),
            op("OpConstant", 43, true, true),
            op("OpDecorate", 71, false, false),
        ],
        enums: vec![EnumName { kind: EnumKind::Decoration, value: 30, name: "Location".to_string() }],
    }
}

fn float_text(bits: u64, width: u32) -> String {
    match width {
        32 => f32::from_bits(bits as u32).to_string(),
        _ => f64::from_bits(bits).to_string(),
    }
}

fn disassemble(d: AsmDisassembler, spv: &SpirvBinary) -> Result<String, Error> {
    d.disassemble(spv, &TypeRegistry::default(), &HashMap::new(), &isa(), &float_text)
}

#[test]
fn disassembler_test_simple() {
    let spv = [0x07230203, 0x00010000, 0x00000000, 0x0000001, 0x00000000]
        .iter()
        .map(|x| *x as u32)
        .collect::<Vec<_>>();
    let spv = SpirvBinary::from(spv);
    let out = disassemble(AsmDisassembler::new(), &spv).unwrap();
    assert_eq!(out, "; SPIR-V\n; Version: 1.0\n; Generator: 0; 0\n; Bound: 1\n; Schema: 0\n");
}

#[test]
fn test_nop() {
    let spv = [
        0x07230203, 0x00010000, 0x00000000, 0x0000001, 0x00000000, 0x00010000,
    ]
    .iter()
    .map(|x| *x as u32)
    .collect::<Vec<_>>();
    let spv = SpirvBinary::from(spv);
    let out = disassemble(AsmDisassembler::new(), &spv).unwrap();
    assert_eq!(
        out,
        "; SPIR-V\n; Version: 1.0\n; Generator: 0; 0\n; Bound: 1\n; Schema: 0\nOpNop\n"
    );
}

#[test]
fn disassemble_lines_with_names_and_constants() {
    let spv = SpirvBinary::from(vec![
        0x07230203u32, 0x00010000, 0, 4, 0,
        0x00040015, 1, 32, 1,
        0x0004002b, 1, 2, 0xfffffffe,
        0x00040047, 2, 30, 3,
    ]);
    let mut types = TypeRegistry::default();
    types.set(1, Type::Scalar(ScalarType::i32())).unwrap();
    let mut names = HashMap::new();
    names.insert(1u32, "int".to_string());
    let out = AsmDisassembler::new()
        .print_header(false)
        .indent(true)
        .disassemble(&spv, &types, &names, &isa(), &float_text)
        .unwrap();
    assert_eq!(out, "%int = OpTypeInt 32 1\n  %2 = OpConstant %int -2\n       OpDecorate %2 Location 3\n");
}

#[test]
fn disassemble_reports_unknown_opcodes() {
    let spv = SpirvBinary::from(vec![0x07230203u32, 0x00010000, 0, 1, 0, 0x00010063]);
    assert_eq!(disassemble(AsmDisassembler::new(), &spv), Err(Error::UnsupportedOpcode(0x63)));
}

#[test]
fn constant_operand_prints_floats() {
    let mut types = TypeRegistry::default();
    types.set(1, Type::Scalar(ScalarType::float32())).unwrap();
    types.set(2, Type::Scalar(ScalarType::uint(64))).unwrap();
    types.set(3, Type::Scalar(ScalarType::float(64))).unwrap();
    let d = AsmDisassembler::new();
    let words = [0x3fc00000u32];
    let mut ops = Operands::new(&words);
    assert_eq!(d.print_constant_op_operand(Some(1), &mut ops, &types, &float_text).unwrap(), " 1.5");
    assert!(ops.is_empty());
    let words = [0u32, 0x3ff80000];
    let mut ops = Operands::new(&words);
    assert_eq!(d.print_constant_op_operand(Some(3), &mut ops, &types, &float_text).unwrap(), " 1.5");
    assert!(ops.is_empty());
    let words = [1u32, 1];
    let mut ops = Operands::new(&words);
    assert_eq!(d.print_constant_op_operand(Some(2), &mut ops, &types, &float_text).unwrap(), " 4294967297");
    assert!(ops.is_empty());
    assert_eq!(d.print_constant_op_operand(Some(9), &mut ops, &types, &float_text), Err(Error::MissingType(9)));
}

#[test]
fn constant_operand_takes_one_value() {
    let mut types = TypeRegistry::default();
    types.set(1, Type::Scalar(ScalarType::i32())).unwrap();
    types.set(2, Type::Scalar(ScalarType::uint(64))).unwrap();
    let d = AsmDisassembler::new();
    let words = [0xfffffffeu32, 7];
    let mut ops = Operands::new(&words);
    assert_eq!(d.print_constant_op_operand(Some(1), &mut ops, &types, &float_text).unwrap(), " -2");
    assert_eq!(ops.len(), 1);
    let words = [5u32];
    let mut ops = Operands::new(&words);
    assert_eq!(d.print_constant_op_operand(Some(2), &mut ops, &types, &float_text), Err(Error::OperandTooShort));
    assert_eq!(ops.len(), 1);
    assert_eq!(d.print_constant_op_operand(None, &mut ops, &types, &float_text), Err(Error::ExpectedResultTypeId(43)));
    assert_eq!(ops.len(), 1);
}

#[test]
fn header_lines_name_glslang() {
    let header = SpirvHeader {
        magic: 0x07230203,
        version: 0x00010500,
        generator: 0x0008000b,
        bound: 406,
        schema: 0,
    };
    let lines = AsmDisassembler::new().header_lines(&header);
    assert_eq!(
        lines,
        vec![
            "; SPIR-V".to_string(),
            "; Version: 1.5".to_string(),
            "; Generator: Khronos Glslang Reference Front End; 11".to_string(),
            "; Bound: 406".to_string(),
            "; Schema: 0".to_string(),
        ]
    );
}

#[test]
fn header_lines_other_generator_and_hex_schema() {
    let header = SpirvHeader {
        magic: 0x07230203,
        version: 0x00010300,
        generator: 0x001c0002,
        bound: 12,
        schema: 0x1a,
    };
    let lines = AsmDisassembler::new().header_lines(&header);
    assert_eq!(lines[2], "; Generator: 28; 2");
    assert_eq!(lines[3], "; Bound: 12");
    assert_eq!(lines[4], "; Schema: 1a");
}

#[test]
fn header_lines_can_be_switched_off() {
    let header = SpirvHeader::new(0x00010000, 0);
    let lines = AsmDisassembler::new().print_header(false).header_lines(&header);
    assert!(lines.is_empty());
}

#[test]
fn indent_aligns_assignments() {
    let lines = vec![
        "%1 = OpTypeVoid".to_string(),
        "%main = OpFunction %1 None %2".to_string(),
        "OpReturn".to_string(),
    ];
    let out = AsmDisassembler::new().indent(true).indent_lines(lines);
    assert_eq!(
        out,
        vec![
            "   %1 = OpTypeVoid".to_string(),
            "%main = OpFunction %1 None %2".to_string(),
            "        OpReturn".to_string(),
        ]
    );
}

#[test]
fn indent_caps_the_column() {
    let lines = vec!["%a_very_long_name_indeed = OpUndef %1".to_string(), "OpNop".to_string()];
    let out = AsmDisassembler::new().indent(true).indent_lines(lines);
    assert_eq!(out[0], "%a_very_long_name_indeed = OpUndef %1");
    assert_eq!(out[1], format!("{}OpNop", " ".repeat(17)));
}

#[test]
fn indent_off_keeps_lines() {
    let lines = vec!["%1 = OpTypeVoid".to_string(), "OpReturn".to_string()];
    let out = AsmDisassembler::new().indent_lines(lines.clone());
    assert_eq!(out, lines);
}

#[test]
fn print_id_uses_names() {
    let mut names = std::collections::HashMap::new();
    names.insert(3u32, "uint".to_string());
    let d = AsmDisassembler::new();
    assert_eq!(d.print_id(3, &names), "%uint");
    assert_eq!(d.print_id(4, &names), "%4");
}

#[test]
fn builder_flags() {
    let d = AsmDisassembler::new();
    assert!(!d.names_any());
    let d = d.name_ids(true);
    assert!(d.names_any());
    let d = AsmDisassembler::new().name_type_ids(true);
    assert!(d.names_any());
    let d = AsmDisassembler::new().name_const_ids(true);
    assert!(d.names_any());
}

#[test]
fn test_asm_dis_roundtrip() {
    let code = r#"
; SPIR-V
; Version: SPIRV_VERSION
; Generator: 0; 0
; Bound: 13
; Schema: 0
%void = OpTypeVoid
%void_0 = OpTypeVoid
%void_1 = OpTypeVoid
%void_2 = OpTypeVoid
%void_3 = OpTypeVoid
%void_4 = OpTypeVoid
%void_5 = OpTypeVoid
%void_6 = OpTypeVoid
%void_7 = OpTypeVoid
%void_8 = OpTypeVoid
%void_9 = OpTypeVoid
%void_10 = OpTypeVoid
"#
    .trim_start();
    let code = code.replace("SPIRV_VERSION", &format!("{}.{}", spirv::MAJOR_VERSION, spirv::MINOR_VERSION));
    let header = SpirvHeader::default();
    let isa = InstructionSet { ops: vec![op("OpTypeVoid", 19, false, true)], enums: vec![] };
    let spv = Assembler::new().assemble(&code, header, &isa, &|_: &spirq_core::spvasm::tokenizer::Lit, _: u32| 0u64, &|_: &spirq_core::spvasm::tokenizer::Lit| 0i64).unwrap();
    // The declared types, in the order of their declarations, named as
    // naming type ids names them.
    let mut voids: Vec<(u32, Type)> = Vec::new();
    let mut it = spv.instrs().unwrap();
    while let Some(instr) = it.next().unwrap() {
        if instr.opcode() == 19 {
            voids.push((instr.as_words()[1], Type::Scalar(ScalarType::Void)));
        }
    }
    let types: Vec<(u32, &Type)> = voids.iter().map(|(id, t)| (*id, t)).collect();
    let names = collect_names(&types, &[], &[], false, true, false);
    let spvasm = AsmDisassembler::new()
        .name_type_ids(true)
        .disassemble(&spv, &TypeRegistry::default(), &names, &isa, &float_text)
        .unwrap();
    assert_eq!(code, spvasm);
}

#[test]
fn header_switch_only_adds_the_header() {
    let spv = SpirvBinary::from(vec![
        0x07230203u32, 0x00010300, 0x00080001, 3, 0,
        0x00040015, 1, 32, 0,
        0x00010000,
    ]);
    for indent in [false, true] {
        let with = disassemble(AsmDisassembler::new().indent(indent), &spv).unwrap();
        let without = disassemble(AsmDisassembler::new().indent(indent).print_header(false), &spv).unwrap();
        let header = "; SPIR-V\n; Version: 1.3\n; Generator: Khronos Glslang Reference Front End; 1\n; Bound: 3\n; Schema: 0\n";
        assert_eq!(with, format!("{header}{without}"));
    }
    let bad = SpirvBinary::from(vec![0x07230203u32, 0x00010000, 0, 1, 0, 0x00010063]);
    assert_eq!(
        disassemble(AsmDisassembler::new(), &bad),
        disassemble(AsmDisassembler::new().print_header(false), &bad)
    );
}
