use spirq_core::constant::ConstantValue::{Bool, F32, S32, U32};
use spirq_core::constant::{Constant, ConstantValue};
use spirq_core::error::Error;
use spirq_core::evaluator::{
    evaluate, Evaluator, OP_BITCAST, OP_BITWISE_AND, OP_BITWISE_OR, OP_BITWISE_XOR, OP_F_ADD,
    OP_I_ADD, OP_I_MUL, OP_I_SUB, OP_NOT, OP_SHIFT_LEFT_LOGICAL, OP_SHIFT_RIGHT_ARITHMETIC,
    OP_SHIFT_RIGHT_LOGICAL, OP_S_CONVERT, OP_S_DIV, OP_S_MOD, OP_S_NEGATE, OP_S_REM, OP_U_DIV,
    OP_U_MOD,
};
use spirq_core::parse::instr::Instr;
use spirq_core::ty::{ScalarType, Type, TypeRegistry};

fn i32_ty() -> Type {
    Type::Scalar(ScalarType::i32())
}

fn u32_ty() -> Type {
    Type::Scalar(ScalarType::u32())
}

fn f32_ty() -> Type {
    Type::Scalar(ScalarType::float32())
}

fn eval(op: u32, ty: &Type, ops: &[ConstantValue]) -> Result<ConstantValue, Error> {
    evaluate(op, ty, ops)
}

#[test]
fn add_sub_mul_wrap_to_32_bits() {
    assert_eq!(eval(OP_I_ADD, &i32_ty(), &[S32(3), S32(4)]), Ok(S32(7)));
    assert_eq!(eval(OP_I_ADD, &i32_ty(), &[S32(i32::MAX), S32(1)]), Ok(S32(i32::MIN)));
    assert_eq!(eval(OP_I_ADD, &u32_ty(), &[U32(u32::MAX), S32(2)]), Ok(U32(1)));
    assert_eq!(eval(OP_I_SUB, &u32_ty(), &[U32(1), U32(2)]), Ok(U32(u32::MAX)));
    assert_eq!(eval(OP_I_SUB, &i32_ty(), &[S32(1), U32(3)]), Ok(S32(-2)));
    assert_eq!(eval(OP_I_MUL, &i32_ty(), &[S32(-3), S32(5)]), Ok(S32(-15)));
    assert_eq!(eval(OP_I_MUL, &u32_ty(), &[U32(0x10000), U32(0x10001)]), Ok(U32(0x10000)));
}

#[test]
fn division_and_remainders() {
    assert_eq!(eval(OP_S_DIV, &i32_ty(), &[S32(-7), S32(2)]), Ok(S32(-3)));
    assert_eq!(eval(OP_S_REM, &i32_ty(), &[S32(-7), S32(2)]), Ok(S32(-1)));
    assert_eq!(eval(OP_S_MOD, &i32_ty(), &[S32(-7), S32(2)]), Ok(S32(1)));
    assert_eq!(eval(OP_U_DIV, &u32_ty(), &[U32(7), U32(2)]), Ok(U32(3)));
    assert_eq!(eval(OP_U_DIV, &u32_ty(), &[S32(-1), U32(2)]), Ok(U32(u32::MAX)));
    assert_eq!(eval(OP_U_MOD, &u32_ty(), &[U32(7), U32(4)]), Ok(U32(3)));
    assert_eq!(
        eval(OP_S_REM, &u32_ty(), &[S32(7), S32(2)]),
        Err(Error::EvaluationFailed(OP_S_REM))
    );
}

#[test]
fn negate_convert_bitcast() {
    assert_eq!(eval(OP_S_NEGATE, &i32_ty(), &[S32(5)]), Ok(S32(-5)));
    assert_eq!(eval(OP_S_CONVERT, &i32_ty(), &[S32(9)]), Ok(S32(9)));
    assert_eq!(eval(OP_BITCAST, &u32_ty(), &[S32(-1)]), Ok(U32(u32::MAX)));
    assert_eq!(eval(OP_BITCAST, &f32_ty(), &[U32(0x3f800000)]), Ok(F32(0x3f800000)));
    assert_eq!(eval(OP_BITCAST, &i32_ty(), &[F32(0x80000000)]), Ok(S32(i32::MIN)));
}

#[test]
fn bit_operations() {
    assert_eq!(eval(OP_SHIFT_LEFT_LOGICAL, &u32_ty(), &[U32(1), U32(31)]), Ok(U32(0x80000000)));
    assert_eq!(eval(OP_SHIFT_RIGHT_LOGICAL, &i32_ty(), &[S32(-8), U32(28)]), Ok(S32(15)));
    assert_eq!(eval(OP_SHIFT_RIGHT_ARITHMETIC, &i32_ty(), &[S32(-8), U32(1)]), Ok(S32(-4)));
    assert_eq!(eval(OP_SHIFT_RIGHT_ARITHMETIC, &u32_ty(), &[U32(0x80000000), U32(1)]), Ok(U32(0xc0000000)));
    assert_eq!(eval(OP_BITWISE_OR, &u32_ty(), &[U32(0b1010), U32(0b0101)]), Ok(U32(0b1111)));
    assert_eq!(eval(OP_BITWISE_XOR, &u32_ty(), &[U32(0b1100), U32(0b0110)]), Ok(U32(0b1010)));
    assert_eq!(eval(OP_BITWISE_AND, &i32_ty(), &[S32(-1), U32(0xff)]), Ok(S32(0xff)));
    assert_eq!(eval(OP_NOT, &u32_ty(), &[U32(0)]), Ok(U32(u32::MAX)));
    assert_eq!(eval(OP_NOT, &i32_ty(), &[S32(0)]), Ok(S32(-1)));
}

#[test]
fn not_twice_gives_back() {
    let once = eval(OP_NOT, &u32_ty(), &[U32(0x1234)]).unwrap();
    assert_eq!(eval(OP_NOT, &u32_ty(), &[once]), Ok(U32(0x1234)));
}

#[test]
fn add_commutes() {
    for (a, b) in [(S32(-5), U32(9)), (U32(u32::MAX), U32(3)), (S32(i32::MIN), S32(-1))] {
        let ab = eval(OP_I_ADD, &i32_ty(), &[a.clone(), b.clone()]);
        let ba = eval(OP_I_ADD, &i32_ty(), &[b, a]);
        assert_eq!(ab, ba);
    }
}

#[test]
fn evaluation_errors() {
    assert_eq!(eval(OP_I_ADD, &f32_ty(), &[S32(1), S32(2)]), Err(Error::EvaluationFailed(OP_I_ADD)));
    assert_eq!(eval(OP_I_ADD, &i32_ty(), &[Bool(true), S32(2)]), Err(Error::EvaluationFailed(OP_I_ADD)));
    assert_eq!(eval(OP_I_ADD, &i32_ty(), &[S32(2)]), Err(Error::EvaluationFailed(OP_I_ADD)));
    assert_eq!(eval(OP_F_ADD, &f32_ty(), &[F32(0), F32(0)]), Err(Error::FloatArithmetic(OP_F_ADD)));
    assert_eq!(eval(1, &i32_ty(), &[]), Err(Error::EvaluationFailed(1)));
}

#[test]
fn evaluator_registers_and_interprets() {
    let mut e = Evaluator::new();
    e.set(10, Constant::new(Some("a".to_string()), i32_ty(), ConstantValue::S32(40))).unwrap();
    e.set(11, Constant::new_itm(i32_ty(), ConstantValue::S32(2))).unwrap();
    assert_eq!(
        e.set(10, Constant::new_itm(i32_ty(), ConstantValue::S32(0))).err(),
        Some(Error::ConstantCollision(10))
    );
    let c = e.interpret(OP_I_ADD, 12, &i32_ty(), &[10, 11]).unwrap();
    assert_eq!(c.value, ConstantValue::S32(42));
    assert_eq!(c.name, None);
    assert_eq!(e.get_value(12), Ok(&ConstantValue::S32(42)));
    assert_eq!(e.get(13).err(), Some(Error::MissingConstant(13)));
    assert_eq!(
        e.interpret(OP_I_ADD, 14, &i32_ty(), &[10, 99]).err(),
        Some(Error::BrokenExpressionTree(14))
    );
    assert_eq!(
        e.interpret(OP_I_ADD, 12, &i32_ty(), &[10, 11]).err(),
        Some(Error::ConstantCollision(12))
    );
    let all = e.constants();
    let values: Vec<ConstantValue> = all.into_iter().map(|c| c.value).collect();
    assert_eq!(values, vec![ConstantValue::S32(40), ConstantValue::S32(2), ConstantValue::S32(42)]);
    assert_eq!(e.iter().len(), 3);
}

#[test]
fn evaluator_ext_instr_sets() {
    let mut e = Evaluator::default();
    e.import_ext_instr_set(1, "GLSL.std.450".to_string()).unwrap();
    assert_eq!(e.import_ext_instr_set(1, "x".to_string()), Err(Error::ExtInstrSetCollision(1)));
    assert_eq!(e.get_ext_instr_set_name(1), Ok("GLSL.std.450"));
    assert_eq!(e.get_ext_instr_set_name(2), Err(Error::MissingExtInstrSet(2)));
}

#[test]
fn evaluator_interprets_instructions() {
    let mut types = TypeRegistry::default();
    types.set(1, i32_ty()).unwrap();
    let mut e = Evaluator::new();
    e.set(10, Constant::new_itm(i32_ty(), ConstantValue::S32(40))).unwrap();
    e.set(11, Constant::new_itm(i32_ty(), ConstantValue::S32(2))).unwrap();
    let add = [0x00050000 | OP_I_ADD, 1, 12, 10, 11];
    let c = e.interpret_instr(&types, &Instr::new(&add).unwrap()).unwrap();
    assert_eq!(c.value, ConstantValue::S32(42));
    assert_eq!(c.ty, i32_ty());
    assert_eq!(e.get_value(12), Ok(&ConstantValue::S32(42)));
    assert_eq!(e.interpret_instr(&types, &Instr::new(&add).unwrap()).err(), Some(Error::ConstantCollision(12)));
    let unknown_ty = [0x00050000 | OP_I_ADD, 7, 13, 10, 11];
    assert_eq!(e.interpret_instr(&types, &Instr::new(&unknown_ty).unwrap()).err(), Some(Error::MissingType(7)));
    let short = [0x00020000 | OP_I_ADD, 1];
    assert_eq!(e.interpret_instr(&types, &Instr::new(&short).unwrap()).err(), Some(Error::OperandTooShort));
    let empty = [0x00010000 | OP_I_ADD];
    assert_eq!(e.interpret_instr(&types, &Instr::new(&empty).unwrap()).err(), Some(Error::OperandTooShort));
    assert_eq!(e.get(13).err(), Some(Error::MissingConstant(13)));
}
