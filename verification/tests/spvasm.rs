use spirq_core::constant::ConstantValue;
use spirq_core::error::Error;
use spirq_core::parse::instr::Operands;
use spirq_core::spvasm::assembler::{encode_int_constant, Assembler, IdRef, Instruction, Operand};
use spirq_core::spvasm::auto_name::{collect_names, sanitize_name, AutoNamer};
use spirq_core::spvasm::operand_layout::{param_slot_list, EnumKind, OperandKind, Repeat, Slot};
use spirq_core::spvasm::print::{print_id, print_list, print_pair_id_u32_list, print_str, print_u32};
use spirq_core::spvasm::print_operand::{print_operand, EnumName};
use spirq_core::spvasm::tokenizer::Lit;
use spirq_core::spvasm::{decorate_parameter_enum_type, operand_enum_type};
use spirq_core::constant::Constant;
use spirq_core::ty::{ArrayType, MatrixType, PointerType, ScalarType, StorageClass, StructType, Type, VectorType};

fn float_text(bits: u64, width: u32) -> String {
    match width {
        32 => f32::from_bits(bits as u32).to_string(),
        _ => f64::from_bits(bits).to_string(),
    }
}

fn no_floats(_: &Lit, _: u32) -> u64 {
    panic!("no floating-point literal is encoded here")
}

// The integer a floating-point literal truncates to: its mantissa scaled by
// two to the power of its exponent in single precision.
fn float_int(lit: &Lit) -> i64 {
    match lit {
        Lit::Float(mantissa, exponent) => {
            let f: f64 = mantissa.parse().unwrap();
            ((f as f32) * 2.0f32.powi(*exponent)) as i64
        }
        _ => panic!("not a floating-point literal"),
    }
}

fn lit(i: i64) -> Operand {
    Operand::Literal(Lit::Int(i))
}

fn instr(result: Option<u32>, opcode: u32, operands: Vec<Operand>) -> Instruction {
    Instruction { result_id: result.map(IdRef::Id), opcode, operands }
}

#[test]
fn sanitize_replaces_punctuation() {
    assert_eq!(sanitize_name("type.PushConstant.Block"), "type_PushConstant_Block");
    assert_eq!(sanitize_name("a-b c!"), "a_b c_");
    assert_eq!(sanitize_name("plain"), "plain");
}

#[test]
fn auto_namer_numbers_repeated_names() {
    let mut n = AutoNamer::new();
    n.assign_name(1, "x".to_string());
    n.assign_name(2, "x".to_string());
    n.assign_name(3, "x".to_string());
    n.assign_name(1, "y".to_string());
    n.assign_name(4, "y".to_string());
    let names = n.names();
    assert_eq!(names.get(&1).unwrap(), "x");
    assert_eq!(names.get(&2).unwrap(), "x_0");
    assert_eq!(names.get(&3).unwrap(), "x_1");
    assert_eq!(names.get(&4).unwrap(), "y");
    assert_eq!(names.len(), 4);
}

#[test]
fn auto_namer_type_and_constant_names() {
    let mut n = AutoNamer::new();
    assert_eq!(n.make_scalar_ty_name(&ScalarType::u32()).as_deref(), Some("uint"));
    assert_eq!(n.make_scalar_ty_name(&ScalarType::float(64)).as_deref(), Some("double"));
    assert_eq!(n.make_scalar_ty_name(&ScalarType::signed_int(16)), None);
    let v = VectorType { scalar_ty: ScalarType::float32(), scalar_count: 3 };
    assert_eq!(n.make_vector_ty_name(&v).as_deref(), Some("v3float"));
    let m = MatrixType { vector_ty: v, vector_count: 4, axis_order: None, stride: None };
    assert_eq!(n.make_matrix_ty_name(&m).as_deref(), Some("mat4v3float"));
    assert_eq!(n.make_const_name(&ConstantValue::S32(-1)).as_deref(), Some("int__1"));
    assert_eq!(n.make_const_name(&ConstantValue::U32(4294967295)).as_deref(), Some("uint_4294967295"));
    assert_eq!(n.make_const_name(&ConstantValue::Bool(false)).as_deref(), Some("false"));
    assert_eq!(n.make_const_name(&ConstantValue::U64(1)), None);
}

#[test]
fn assembler_ids() {
    let mut a = Assembler::new();
    assert_eq!(a.str2idref("12".to_string()), IdRef::Id(12));
    assert_eq!(a.str2idref("+7".to_string()), IdRef::Id(7));
    assert_eq!(a.str2idref("main".to_string()), IdRef::Name("main".to_string()));
    assert_eq!(a.str2idref("4294967296".to_string()), IdRef::Name("4294967296".to_string()));
    a.mark_id(0);
    a.mark_id(2);
    assert_eq!(a.acquire_id("a"), 1);
    assert_eq!(a.acquire_id("b"), 3);
    assert_eq!(a.acquire_id("a"), 1);
    assert_eq!(a.process_idref(&IdRef::Name("c".to_string())), Ok(IdRef::Id(4)));
    assert_eq!(a.process_idref(&IdRef::Id(9)), Ok(IdRef::Id(9)));
}

#[test]
fn assemble_scalar_types() {
    let mut a = Assembler::new();
    let words = a.assemble_op_type_int(&instr(Some(5), 21, vec![lit(32), lit(1)])).unwrap();
    assert_eq!(words, vec![0x00040015, 5, 32, 1]);
    let words = a.assemble_op_type_float(&instr(Some(6), 22, vec![lit(32)])).unwrap();
    assert_eq!(words, vec![0x00030016, 6, 32]);
    assert_eq!(
        a.assemble_op_type_int(&instr(Some(5), 21, vec![lit(8), lit(0)])),
        Err(Error::DuplicateResultId(5))
    );
    assert_eq!(a.assemble_op_type_int(&instr(Some(7), 21, vec![lit(8)])), Err(Error::OperandCount(21)));
    assert_eq!(
        a.assemble_op_type_int(&instr(Some(7), 21, vec![Operand::Ident("x".to_string()), lit(0)])),
        Err(Error::ExpectedLiteralInteger(21, 0))
    );
    assert_eq!(a.assemble_op_type_float(&instr(None, 22, vec![lit(16)])), Err(Error::ExpectedResultId(22)));
}

#[test]
fn assemble_integer_constants() {
    let mut a = Assembler::new();
    a.assemble_op_type_int(&instr(Some(1), 21, vec![lit(32), lit(1)])).unwrap();
    a.assemble_op_type_int(&instr(Some(2), 21, vec![lit(64), lit(0)])).unwrap();
    a.assemble_op_type_int(&instr(Some(3), 21, vec![lit(8), lit(0)])).unwrap();
    a.assemble_op_type_float(&instr(Some(4), 22, vec![lit(32)])).unwrap();
    let c = |ty: u32, v: Operand| instr(Some(10), 43, vec![Operand::IdRef(IdRef::Id(ty)), v]);
    assert_eq!(a.assemble_op_constant(&c(1, lit(-2)), &no_floats, &float_int).unwrap(), vec![0x0004002b, 1, 10, 0xfffffffe]);
    assert_eq!(a.assemble_op_constant(&c(2, lit(-1)), &no_floats, &float_int).unwrap(), vec![0x0005002b, 2, 10, 0xffffffff, 0xffffffff]);
    assert_eq!(a.assemble_op_constant(&c(3, lit(255)), &no_floats, &float_int).unwrap(), vec![0x0004002b, 3, 10, 255]);
    assert_eq!(a.assemble_op_constant(&c(3, lit(256)), &no_floats, &float_int), Err(Error::ConstantOutOfRange));
    assert_eq!(a.assemble_op_constant(&c(9, lit(1)), &no_floats, &float_int), Err(Error::UnknownResultType(9)));
    assert_eq!(
        a.assemble_op_constant(&c(1, Operand::Literal(Lit::Float("1.5".to_string(), 0))), &no_floats, &float_int),
        Ok(vec![0x0004002b, 1, 10, 1])
    );
    assert_eq!(
        a.assemble_op_constant(&c(1, Operand::Literal(Lit::Float("-2.75".to_string(), 1))), &no_floats, &float_int),
        Ok(vec![0x0004002b, 1, 10, 0xfffffffb])
    );
    assert_eq!(
        a.assemble_op_constant(&c(3, Operand::Literal(Lit::Float("300.5".to_string(), 0))), &no_floats, &float_int),
        Err(Error::ConstantOutOfRange)
    );
    assert_eq!(
        a.assemble_op_constant(&c(1, Operand::Literal(Lit::String("x".to_string()))), &no_floats, &float_int),
        Err(Error::ExpectedNumericLiteral)
    );
    assert_eq!(a.assemble_op_constant(&c(1, Operand::Ident("x".to_string())), &no_floats, &float_int), Err(Error::ExpectedLiteral(43)));
}

#[test]
fn integer_constant_encoding() {
    assert_eq!(encode_int_constant(ScalarType::signed_int(16), -32768), Ok(vec![0xffff8000]));
    assert_eq!(encode_int_constant(ScalarType::signed_int(16), 32768), Err(Error::ConstantOutOfRange));
    assert_eq!(encode_int_constant(ScalarType::uint(32), -1), Err(Error::ConstantOutOfRange));
    assert_eq!(encode_int_constant(ScalarType::uint(64), 0x100000002), Ok(vec![2, 1]));
    assert_eq!(encode_int_constant(ScalarType::Boolean, 0), Err(Error::ConstantOutOfRange));
}

#[test]
fn operand_printers() {
    let words = [3u32, 0x00006968, 7, 8];
    let mut ops = Operands::new(&words);
    assert_eq!(print_id(&mut ops).unwrap(), "%3");
    assert_eq!(print_str(&mut ops).unwrap(), "\"hi\"");
    assert_eq!(print_u32(&mut ops).unwrap(), "7");
    assert_eq!(print_list(&mut ops).unwrap(), vec!["8".to_string()]);
    assert_eq!(print_id(&mut ops), Err(Error::OperandTooShort));
    let pairs = [1u32, 2, 3, 4];
    let mut ops = Operands::new(&pairs);
    assert_eq!(print_pair_id_u32_list(&mut ops).unwrap(), vec!["%1 2".to_string(), "%3 4".to_string()]);
    let odd = [1u32, 2, 3];
    let mut ops = Operands::new(&odd);
    assert_eq!(print_pair_id_u32_list(&mut ops), Err(Error::UnpairedOperands));
}

#[test]
fn operand_enum_tables() {
    assert_eq!(operand_enum_type(14, 1), Ok("MemoryModel"));
    assert_eq!(operand_enum_type(14, 2), Err(Error::UnknownOperandIndex(14, 2)));
    assert_eq!(operand_enum_type(1, 0), Err(Error::NotEnumOperand(1, 0)));
    assert!(decorate_parameter_enum_type(0, 0).is_err());
}

fn names() -> Vec<EnumName> {
    vec![
        EnumName { kind: EnumKind::StorageClass, value: 1, name: "Input".to_string() },
        EnumName { kind: EnumKind::Decoration, value: 30, name: "Location".to_string() },
        EnumName { kind: EnumKind::Decoration, value: 2, name: "Block".to_string() },
        EnumName { kind: EnumKind::LoopControl, value: 0, name: "None".to_string() },
        EnumName { kind: EnumKind::LoopControl, value: 8, name: "DependencyLength".to_string() },
        EnumName { kind: EnumKind::StorageClass, value: 1, name: "Shadowed".to_string() },
        EnumName { kind: EnumKind::Decoration, value: 6170, name: "FPMaxErrorDecorationINTEL".to_string() },
    ]
}

#[test]
fn print_operand_float_parameter() {
    // OpDecorate %2 FPMaxErrorDecorationINTEL 1.5
    let words = [2u32, 6170, 0x3fc00000];
    let mut ops = Operands::new(&words);
    assert_eq!(
        print_operand(71, &mut ops, &names(), &float_text).unwrap(),
        vec!["%2".to_string(), "FPMaxErrorDecorationINTEL".to_string(), "1.5".to_string()]
    );
    assert!(ops.is_empty());
}

#[test]
fn print_operand_by_layout() {
    // OpName %1 "main"
    let words = [1u32, 0x6e69616d, 0];
    let mut ops = Operands::new(&words);
    assert_eq!(print_operand(5, &mut ops, &names(), &float_text).unwrap(), vec!["%1".to_string(), "\"main\"".to_string()]);
    assert!(ops.is_empty());
    // OpVariable Input, then with an initializer %5
    let words = [1u32];
    let mut ops = Operands::new(&words);
    assert_eq!(print_operand(59, &mut ops, &names(), &float_text).unwrap(), vec!["Input".to_string()]);
    let words = [1u32, 5];
    let mut ops = Operands::new(&words);
    assert_eq!(
        print_operand(59, &mut ops, &names(), &float_text).unwrap(),
        vec!["Input".to_string(), "%5".to_string()]
    );
    // OpDecorate %4 Location 7
    let words = [4u32, 30, 7];
    let mut ops = Operands::new(&words);
    assert_eq!(
        print_operand(71, &mut ops, &names(), &float_text).unwrap(),
        vec!["%4".to_string(), "Location".to_string(), "7".to_string()]
    );
    // OpDecorate %4 Block, with a word too many
    let words = [4u32, 2, 9];
    let mut ops = Operands::new(&words);
    assert_eq!(
        print_operand(71, &mut ops, &names(), &float_text).unwrap(),
        vec!["%4".to_string(), "Block".to_string(), "!9".to_string()]
    );
}

#[test]
fn print_operand_flag_parameters() {
    // OpLoopMerge %1 %2 DependencyLength 4
    let words = [1u32, 2, 8, 4];
    let mut ops = Operands::new(&words);
    assert_eq!(
        print_operand(246, &mut ops, &names(), &float_text).unwrap(),
        vec!["%1".to_string(), "%2".to_string(), "DependencyLength".to_string(), "4".to_string()]
    );
    assert_eq!(param_slot_list(EnumKind::LoopControl, 8), vec![Slot { kind: OperandKind::U32, repeat: Repeat::One }]);
    assert_eq!(param_slot_list(EnumKind::LoopControl, 0), vec![]);
}

#[test]
fn print_operand_errors() {
    let words = [99u32];
    let mut ops = Operands::new(&words);
    assert_eq!(print_operand(59, &mut ops, &names(), &float_text), Err(Error::UnknownEnumerant(99)));
    let mut ops = Operands::new(&[]);
    assert_eq!(print_operand(5, &mut ops, &names(), &float_text), Err(Error::OperandTooShort));
    let mut ops = Operands::new(&[]);
    assert_eq!(print_operand(0xffff, &mut ops, &names(), &float_text), Err(Error::UnsupportedOpcode(0xffff)));
    let mut ops = Operands::new(&[]);
    assert_eq!(print_operand(0, &mut ops, &names(), &float_text), Ok(vec![]));
}

#[test]
fn print_operand_grammar_cases() {
    let mut names = names();
    names.push(EnumName { kind: EnumKind::ExecutionMode, value: 17, name: "LocalSize".to_string() });
    // OpExtInst operand words: set %1, instruction number 69, arguments %64 %65
    let words = [1u32, 69, 64, 65];
    let mut ops = Operands::new(&words);
    assert_eq!(
        print_operand(12, &mut ops, &names, &float_text).unwrap(),
        vec!["%1".to_string(), "69".to_string(), "%64".to_string(), "%65".to_string()]
    );
    assert!(ops.is_empty());
    // OpTypeInt with a surplus word
    let words = [32u32, 1, 7];
    let mut ops = Operands::new(&words);
    assert_eq!(
        print_operand(21, &mut ops, &names, &float_text).unwrap(),
        vec!["32".to_string(), "1".to_string(), "!7".to_string()]
    );
    assert!(ops.is_empty());
    // An unassigned opcode and a short operand list are errors.
    let mut ops = Operands::new(&words);
    assert_eq!(print_operand(13, &mut ops, &names, &float_text), Err(Error::UnsupportedOpcode(13)));
    let short = [32u32];
    let mut ops = Operands::new(&short);
    assert_eq!(print_operand(21, &mut ops, &names, &float_text), Err(Error::OperandTooShort));
    // OpExecutionMode %3 LocalSize 8 8 1
    let words = [3u32, 17, 8, 8, 1];
    let mut ops = Operands::new(&words);
    assert_eq!(
        print_operand(16, &mut ops, &names, &float_text).unwrap(),
        vec!["%3".to_string(), "LocalSize".to_string(), "8".to_string(), "8".to_string(), "1".to_string()]
    );
    assert!(ops.is_empty());
    // OpNop has no operands.
    let none: [u32; 0] = [];
    let mut ops = Operands::new(&none);
    assert_eq!(print_operand(0, &mut ops, &names, &float_text), Ok(vec![]));
}

#[test]
fn auto_namer_collects_type_names() {
    let int = Type::Scalar(ScalarType::i32());
    let arr = Type::Array(ArrayType { element_ty: Box::new(int.clone()), element_count: Some(4), stride: None });
    let anon = Type::Struct(StructType { name: None, members: vec![] });
    let anon_arr = Type::Array(ArrayType { element_ty: Box::new(anon.clone()), element_count: None, stride: None });
    let named = Type::Struct(StructType { name: Some("Foo.bar".to_string()), members: vec![] });
    let ptr = Type::DevicePointer(PointerType { pointee_ty: Box::new(int.clone()), store_cls: StorageClass::PhysicalStorageBuffer });
    let anon_ptr = Type::DevicePointer(PointerType { pointee_ty: Box::new(anon.clone()), store_cls: StorageClass::Uniform });
    let types: Vec<(u32, &Type)> = vec![(1, &int), (2, &arr), (3, &anon_arr), (4, &named), (5, &ptr), (6, &int), (8, &anon), (7, &anon_ptr)];
    let mut n = AutoNamer::new();
    n.collect_ty_names(&types);
    let names = n.names();
    assert_eq!(names.get(&1).unwrap(), "int");
    assert_eq!(names.get(&2).unwrap(), "_arr_int_uint_4");
    assert_eq!(names.get(&4).unwrap(), "Foo_bar");
    assert_eq!(names.get(&5).unwrap(), "_ptr_PhysicalStorageBuffer_int");
    assert_eq!(names.get(&6).unwrap(), "int_0");
    assert_eq!(names.get(&7).unwrap(), "_ptr_Uniform_8");
    assert_eq!(names.len(), 6);
    assert_eq!(n.make_ty_name(&int).as_deref(), Some("int"));
    assert_eq!(n.make_ty_name(&Type::Array(ArrayType { element_ty: Box::new(anon.clone()), element_count: None, stride: None })), None);
    let runtime = ArrayType { element_ty: Box::new(Type::Scalar(ScalarType::float32())), element_count: None, stride: Some(4) };
    assert_eq!(n.make_arr_ty_name(&runtime).as_deref(), Some("_runtimearr_float"));
    let to_anon = PointerType { pointee_ty: Box::new(anon.clone()), store_cls: StorageClass::Function };
    assert_eq!(n.make_pointer_ty_name(&to_anon).as_deref(), Some("_ptr_Function_8"));
}

#[test]
fn auto_namer_collects_constant_and_debug_names() {
    let int = Type::Scalar(ScalarType::i32());
    let a = Constant::new_itm(int.clone(), ConstantValue::S32(-3));
    let b = Constant::new(Some("n".to_string()), int.clone(), ConstantValue::S32(5));
    let c = Constant::new_itm(Type::Scalar(ScalarType::Boolean), ConstantValue::Bool(true));
    let d = Constant::new_itm(Type::Scalar(ScalarType::float32()), ConstantValue::F32(0));
    let e = Constant::new_itm(int.clone(), ConstantValue::S32(-3));
    let mut n = AutoNamer::new();
    n.collect_const_names(&[(10, &a), (11, &b), (12, &c), (13, &d), (14, &e)]);
    n.collect_annotated_names(&[(20, "a.b".to_string()), (21, "a_b".to_string()), (10, "x".to_string())]);
    let names = n.names();
    assert_eq!(names.get(&10).unwrap(), "int__3");
    assert_eq!(names.get(&11).unwrap(), "n");
    assert_eq!(names.get(&12).unwrap(), "true");
    assert!(names.get(&13).is_none());
    assert_eq!(names.get(&14).unwrap(), "int__3_0");
    assert_eq!(names.get(&20).unwrap(), "a_b");
    assert_eq!(names.get(&21).unwrap(), "a_b_0");
    assert_eq!(names.len(), 6);
}

#[test]
fn collect_names_names_types_twice_then_constants_then_debug_names() {
    let int = Type::Scalar(ScalarType::i32());
    let anon = Type::Struct(StructType { name: None, members: vec![] });
    let anon_ptr = Type::DevicePointer(PointerType { pointee_ty: Box::new(anon.clone()), store_cls: StorageClass::Uniform });
    let a = Constant::new_itm(int.clone(), ConstantValue::S32(-3));
    let types: Vec<(u32, &Type)> = vec![(7, &anon_ptr), (8, &anon), (1, &int)];
    let consts: Vec<(u32, &Constant)> = vec![(10, &a)];
    let debug = vec![(7, "p".to_string()), (9, "v.x".to_string())];
    let all = collect_names(&types, &consts, &debug, true, true, true);
    assert_eq!(all.get(&7).unwrap(), "_ptr_Uniform_8");
    assert_eq!(all.get(&1).unwrap(), "int");
    assert_eq!(all.get(&10).unwrap(), "int__3");
    assert_eq!(all.get(&9).unwrap(), "v_x");
    assert_eq!(all.len(), 4);
    assert!(collect_names(&types, &consts, &debug, false, false, false).is_empty());
    let only_debug = collect_names(&types, &consts, &debug, true, false, false);
    assert_eq!(only_debug.get(&7).unwrap(), "p");
    assert_eq!(only_debug.len(), 2);
}
