use spirq_core::error::Error;
use spirq_core::ty::layout::{type_access, type_min_size, type_size};
use spirq_core::ty::{
    AccessType, ArrayType, DeviceAddressType, Dim, ImageFormat, ImageType, MatrixAxisOrder,
    MatrixType, PointerType, SamplerType, ScalarType, SpirvType, StorageClass, StructMember,
    StructType, Type, TypeRegistry, VectorType,
};

fn f32_ty() -> Type {
    Type::Scalar(ScalarType::float32())
}

fn vec4() -> VectorType {
    VectorType { scalar_ty: ScalarType::float32(), scalar_count: 4 }
}

fn member(name: &str, offset: usize, ty: Type, access_ty: AccessType) -> StructMember {
    StructMember { name: Some(name.to_string()), offset: Some(offset), ty, access_ty }
}

#[test]
fn scalar_constructors() {
    assert_eq!(ScalarType::signed_int(16), ScalarType::Integer { bits: 16, is_signed: true });
    assert_eq!(ScalarType::uint(8), ScalarType::Integer { bits: 8, is_signed: false });
    assert_eq!(ScalarType::float(64), ScalarType::Float { bits: 64 });
    assert_eq!(ScalarType::i32(), ScalarType::Integer { bits: 32, is_signed: true });
    assert_eq!(ScalarType::u32(), ScalarType::Integer { bits: 32, is_signed: false });
    assert_eq!(ScalarType::float32(), ScalarType::Float { bits: 32 });
}

#[test]
fn scalar_sizes() {
    assert_eq!(ScalarType::Void.min_size(), None);
    assert_eq!(ScalarType::Boolean.size(), None);
    assert_eq!(ScalarType::signed_int(16).min_size(), Some(2));
    assert_eq!(ScalarType::float(64).size(), Some(8));
    assert!(ScalarType::u32().is_sized());
    assert!(!ScalarType::Void.is_sized());
}

#[test]
fn vector_and_matrix_sizes() {
    assert_eq!(vec4().size(), Some(16));
    let m = MatrixType { vector_ty: vec4(), vector_count: 4, axis_order: Some(MatrixAxisOrder::ColumnMajor), stride: Some(16) };
    assert_eq!(m.min_size(), Some(64));
    let m = MatrixType { stride: None, ..m };
    assert_eq!(m.size(), None);
    assert_eq!(MatrixAxisOrder::default(), MatrixAxisOrder::ColumnMajor);
}

#[test]
fn array_sizes() {
    let a = ArrayType { element_ty: Box::new(f32_ty()), element_count: Some(3), stride: Some(4) };
    assert_eq!(a.min_size(), Some(12));
    assert_eq!(a.size(), Some(12));
    assert_eq!(a.member_offset(2), Some(8));
    let rt = ArrayType { element_ty: Box::new(f32_ty()), element_count: None, stride: Some(4) };
    assert_eq!(rt.min_size(), Some(4));
    assert_eq!(rt.size(), Some(0));
    let unstrided = ArrayType { element_ty: Box::new(f32_ty()), element_count: Some(2), stride: None };
    assert_eq!(unstrided.size(), None);
}

#[test]
fn struct_sizes_and_offsets() {
    let s = StructType {
        name: Some("Block".to_string()),
        members: vec![
            member("a", 0, Type::Vector(vec4()), AccessType::ReadOnly),
            member("b", 16, f32_ty(), AccessType::ReadOnly),
        ],
    };
    assert_eq!(s.name(), Some("Block"));
    assert_eq!(s.min_size(), Some(20));
    assert_eq!(s.size(), Some(20));
    assert_eq!(s.member_offset(1), Some(16));
    assert_eq!(s.member_offset(2), None);
    let t = Type::Struct(s);
    assert_eq!(type_min_size(&t), Some(20));
    assert_eq!(type_size(&t), Some(20));
    let empty = StructType { name: None, members: vec![] };
    assert_eq!(empty.size(), None);
    assert_eq!(empty.name(), None);
}

#[test]
fn pointer_sizes() {
    assert_eq!(DeviceAddressType {}.size(), Some(8));
    let p = PointerType { pointee_ty: Box::new(f32_ty()), store_cls: StorageClass::PhysicalStorageBuffer };
    assert_eq!(p.min_size(), Some(8));
    assert_eq!(type_size(&Type::DevicePointer(p)), Some(8));
    assert_eq!(SamplerType {}.size(), None);
}

#[test]
fn access_combines_members() {
    let ro = StructType { name: None, members: vec![member("a", 0, f32_ty(), AccessType::ReadOnly), member("b", 4, f32_ty(), AccessType::ReadOnly)] };
    assert_eq!(ro.access_ty(), Some(AccessType::ReadOnly));
    let mixed = StructType { name: None, members: vec![member("a", 0, f32_ty(), AccessType::ReadOnly), member("b", 4, f32_ty(), AccessType::WriteOnly)] };
    assert_eq!(mixed.access_ty(), Some(AccessType::ReadWrite));
    let wo = StructType { name: None, members: vec![member("a", 0, f32_ty(), AccessType::WriteOnly)] };
    assert_eq!(wo.access_ty(), Some(AccessType::WriteOnly));
    let none = StructType { name: None, members: vec![] };
    assert_eq!(none.access_ty(), None);
    let arr = Type::Array(ArrayType { element_ty: Box::new(Type::Struct(mixed)), element_count: None, stride: Some(8) });
    assert_eq!(arr.access_ty(), Some(AccessType::ReadWrite));
    assert_eq!(type_access(&arr), Some(AccessType::ReadWrite));
    assert_eq!(f32_ty().access_ty(), None);
}

#[test]
fn access_operators() {
    assert_eq!(AccessType::ReadOnly | AccessType::ReadOnly, AccessType::ReadOnly);
    assert_eq!(AccessType::ReadOnly | AccessType::WriteOnly, AccessType::ReadWrite);
    assert_eq!(AccessType::ReadWrite & AccessType::WriteOnly, Some(AccessType::WriteOnly));
    assert_eq!(AccessType::ReadOnly & AccessType::WriteOnly, None);
    assert_eq!(AccessType::ReadOnly.to_u32(), 1);
    assert_eq!(AccessType::WriteOnly.to_u32(), 2);
    assert_eq!(AccessType::ReadWrite.to_u32(), 3);
}

#[test]
fn type_predicates_and_downcasts() {
    let v = Type::Vector(vec4());
    assert!(v.is_vector());
    assert!(!v.is_scalar());
    assert_eq!(v.as_vector(), Some(&vec4()));
    assert_eq!(v.as_scalar(), None);
    let img = Type::Image(ImageType {
        scalar_ty: ScalarType::float32(),
        dim: Dim::Dim2D,
        is_depth: Some(false),
        is_array: false,
        is_multisampled: false,
        is_sampled: Some(true),
        fmt: ImageFormat::Unknown,
    });
    assert!(img.is_image());
    assert_eq!(img.as_image().unwrap().dim, Dim::Dim2D);
    assert!(Type::DeviceAddress(DeviceAddressType {}).is_device_address());
}

#[test]
fn clone_copies_nested_types() {
    let s = Type::Struct(StructType {
        name: Some("S".to_string()),
        members: vec![member("a", 0, Type::Array(ArrayType { element_ty: Box::new(f32_ty()), element_count: Some(2), stride: Some(4) }), AccessType::ReadWrite)],
    });
    let c = s.clone();
    assert_eq!(c, s);
}

#[test]
fn mutate_rewrites_bottom_up() {
    let s = Type::Struct(StructType {
        name: None,
        members: vec![
            member("a", 0, f32_ty(), AccessType::ReadOnly),
            member("b", 16, Type::Array(ArrayType { element_ty: Box::new(f32_ty()), element_count: Some(2), stride: Some(4) }), AccessType::ReadOnly),
        ],
    });
    let out = s.mutate(|t| match t {
        Type::Scalar(ScalarType::Float { bits: 32 }) => Type::Scalar(ScalarType::u32()),
        other => other,
    });
    let expected = Type::Struct(StructType {
        name: None,
        members: vec![
            member("a", 0, Type::Scalar(ScalarType::u32()), AccessType::ReadOnly),
            member("b", 16, Type::Array(ArrayType { element_ty: Box::new(Type::Scalar(ScalarType::u32())), element_count: Some(2), stride: Some(4) }), AccessType::ReadOnly),
        ],
    });
    assert_eq!(out, expected);
}

#[test]
fn mutate_hands_every_node_to_the_function() {
    let arr = Type::Array(ArrayType { element_ty: Box::new(f32_ty()), element_count: Some(2), stride: Some(4) });
    let out = arr.mutate(|t| match t {
        Type::Array(a) => Type::Array(ArrayType { element_count: Some(7), ..a }),
        other => other,
    });
    assert_eq!(out.as_array().unwrap().element_count, Some(7));
}

#[test]
fn registry_refines_device_address_only() {
    let mut reg = TypeRegistry::default();
    assert_eq!(reg.get(1).err(), Some(Error::MissingType(1)));
    reg.set(1, f32_ty()).unwrap();
    assert_eq!(reg.get(1).unwrap(), &f32_ty());
    assert_eq!(reg.set(1, Type::Scalar(ScalarType::u32())), Err(Error::TypeCollision(1)));
    assert_eq!(reg.get(1).unwrap(), &f32_ty());
    reg.set(2, Type::DeviceAddress(DeviceAddressType {})).unwrap();
    let p = Type::DevicePointer(PointerType { pointee_ty: Box::new(f32_ty()), store_cls: StorageClass::PhysicalStorageBuffer });
    reg.set(2, p).unwrap();
    assert!(reg.get(2).unwrap().is_device_pointer());
}

#[test]
fn mutate_with_identity_gives_the_type_back() {
    let s = Type::Struct(StructType {
        name: Some("S".to_string()),
        members: vec![
            member("a", 0, f32_ty(), AccessType::ReadOnly),
            member("b", 16, Type::Array(ArrayType { element_ty: Box::new(Type::Vector(vec4())), element_count: None, stride: Some(16) }), AccessType::ReadWrite),
        ],
    });
    assert_eq!(s.clone().mutate(|t| t), s);
    let p = Type::DevicePointer(PointerType { pointee_ty: Box::new(f32_ty()), store_cls: StorageClass::PhysicalStorageBuffer });
    assert_eq!(p.clone().mutate(|t| t), p);
}
