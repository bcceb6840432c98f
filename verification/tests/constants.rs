use spirq_core::constant::{Constant, ConstantValue};
use spirq_core::error::Error;
use spirq_core::ty::{ScalarType, Type};

fn scalar(s: ScalarType) -> Type {
    Type::Scalar(s)
}

#[test]
fn from_words_and_bytes_are_untyped() {
    assert_eq!(
        ConstantValue::from_words(&[0x04030201]),
        ConstantValue::Typeless(vec![1, 2, 3, 4])
    );
    assert_eq!(ConstantValue::from_bytes(&[9, 8]), ConstantValue::Typeless(vec![9, 8]));
    assert_eq!(ConstantValue::from(true), ConstantValue::Bool(true));
    assert_eq!(ConstantValue::from(7u32), ConstantValue::U32(7));
    assert_eq!(ConstantValue::from(-7i32), ConstantValue::S32(-7));
}

#[test]
fn to_typed_reads_little_endian() {
    let v = ConstantValue::from_words(&[0xfffffffe]);
    assert_eq!(v.to_typed(&scalar(ScalarType::i32())), Ok(ConstantValue::S32(-2)));
    assert_eq!(v.to_typed(&scalar(ScalarType::u32())), Ok(ConstantValue::U32(0xfffffffe)));
    assert_eq!(v.to_typed(&scalar(ScalarType::signed_int(8))), Ok(ConstantValue::S8(-2)));
    assert_eq!(v.to_typed(&scalar(ScalarType::uint(16))), Ok(ConstantValue::U16(0xfffe)));
    assert_eq!(v.to_typed(&scalar(ScalarType::signed_int(16))), Ok(ConstantValue::S16(-2)));
    assert_eq!(v.to_typed(&scalar(ScalarType::float32())), Ok(ConstantValue::F32(0xfffffffe)));
    assert_eq!(v.to_typed(&scalar(ScalarType::float(16))), Ok(ConstantValue::F16(0xfffe)));
    let w = ConstantValue::from_words(&[0x00000001, 0x80000000]);
    assert_eq!(w.to_typed(&scalar(ScalarType::signed_int(64))), Ok(ConstantValue::S64(i64::MIN + 1)));
    assert_eq!(w.to_typed(&scalar(ScalarType::uint(64))), Ok(ConstantValue::U64(0x8000000000000001)));
    assert_eq!(w.to_typed(&scalar(ScalarType::float(64))), Ok(ConstantValue::F64(0x8000000000000001)));
}

#[test]
fn to_typed_bool_is_any_nonzero_byte() {
    let t = scalar(ScalarType::Boolean);
    assert_eq!(ConstantValue::from_words(&[0]).to_typed(&t), Ok(ConstantValue::Bool(false)));
    assert_eq!(ConstantValue::from_words(&[0x0100]).to_typed(&t), Ok(ConstantValue::Bool(true)));
    assert_eq!(ConstantValue::from_bytes(&[]).to_typed(&t), Ok(ConstantValue::Bool(false)));
}

#[test]
fn to_typed_errors() {
    let v = ConstantValue::from_words(&[1]);
    assert_eq!(v.to_typed(&scalar(ScalarType::signed_int(64))), Err(Error::UnparsableConstant));
    assert_eq!(v.to_typed(&scalar(ScalarType::Void)), Err(Error::UnparsableConstant));
    assert_eq!(v.to_typed(&scalar(ScalarType::signed_int(24))), Err(Error::UnparsableConstant));
    let vec_ty = Type::Vector(spirq_core::ty::VectorType { scalar_ty: ScalarType::u32(), scalar_count: 2 });
    assert_eq!(v.to_typed(&vec_ty), Err(Error::UnparsableConstant));
    assert_eq!(ConstantValue::U32(1).to_typed(&scalar(ScalarType::u32())), Err(Error::AlreadyTyped));
}

#[test]
fn accessors() {
    assert_eq!(ConstantValue::Bool(true).to_bool(), Some(true));
    assert_eq!(ConstantValue::U32(1).to_bool(), None);
    assert_eq!(ConstantValue::S32(-3).to_s32(), Some(-3));
    assert_eq!(ConstantValue::U32(3).to_s32(), None);
    assert_eq!(ConstantValue::S32(-3).to_u32(), Some(-3));
    assert_eq!(ConstantValue::U32(3).to_u32(), None);
}

#[test]
fn to_typeless_gives_little_endian_bytes() {
    assert_eq!(ConstantValue::U32(0x01020304).to_typeless(), Some(vec![4, 3, 2, 1]));
    assert_eq!(ConstantValue::S16(-2).to_typeless(), Some(vec![0xfe, 0xff]));
    assert_eq!(ConstantValue::S8(-1).to_typeless(), Some(vec![0xff]));
    assert_eq!(ConstantValue::U64(1).to_typeless(), Some(vec![1, 0, 0, 0, 0, 0, 0, 0]));
    assert_eq!(ConstantValue::F32(0x3f800000).to_typeless(), Some(vec![0, 0, 0x80, 0x3f]));
    assert_eq!(ConstantValue::Bool(true).to_typeless(), Some(vec![1]));
    assert_eq!(ConstantValue::Typeless(vec![5]).to_typeless(), Some(vec![5]));
}

#[test]
fn typed_then_typeless_roundtrip() {
    let bytes = ConstantValue::from_words(&[0x89abcdef]);
    let typed = bytes.to_typed(&scalar(ScalarType::u32())).unwrap();
    assert_eq!(typed.to_typeless(), Some(vec![0xef, 0xcd, 0xab, 0x89]));
}

#[test]
fn constant_constructors() {
    let c = Constant::new(Some("x".to_string()), scalar(ScalarType::u32()), ConstantValue::U32(1));
    assert_eq!(c.spec_id, None);
    assert_eq!(c.name.as_deref(), Some("x"));
    let c = Constant::new_itm(scalar(ScalarType::u32()), ConstantValue::U32(1));
    assert_eq!(c.name, None);
    let c = Constant::new_spec(None, scalar(ScalarType::u32()), ConstantValue::U32(1), 5);
    assert_eq!(c.spec_id, Some(5));
    let d = c.clone();
    assert_eq!(d, c);
}
