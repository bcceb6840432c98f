//! Copies of type descriptions.
use vstd::prelude::*;

use crate::ty::{
    ArrayType,
    CombinedImageSamplerType,
    ImageType,
    PointerType,
    SampledImageType,
    StorageImageType,
    StructMember,
    StructType,
    Type,
};

verus! {

/// Two types describe the same type: equal in every field, where the members
/// of structs are compared one by one.
pub open spec fn ty_same(a: Type, b: Type) -> bool
    decreases a,
{
    match (a, b) {
        (Type::Array(x), Type::Array(y)) => {
            &&& x.element_count == y.element_count
            &&& x.stride == y.stride
            &&& ty_same(*x.element_ty, *y.element_ty)
        },
        (Type::DevicePointer(x), Type::DevicePointer(y)) => {
            &&& x.store_cls == y.store_cls
            &&& ty_same(*x.pointee_ty, *y.pointee_ty)
        },
        (Type::Struct(x), Type::Struct(y)) => {
            &&& x.name == y.name
            &&& x.members@.len() == y.members@.len()
            &&& forall|i: int|
                0 <= i < x.members@.len() ==> {
                    &&& #[trigger] x.members@[i].name == y.members@[i].name
                    &&& x.members@[i].offset == y.members@[i].offset
                    &&& x.members@[i].access_ty == y.members@[i].access_ty
                    &&& ty_same(x.members@[i].ty, y.members@[i].ty)
                }
        },
        _ => a == b,
    }
}

/// Two struct members describe the same member.
pub open spec fn member_same(a: StructMember, b: StructMember) -> bool {
    &&& a.name == b.name
    &&& a.offset == b.offset
    &&& a.access_ty == b.access_ty
    &&& ty_same(a.ty, b.ty)
}

/// Two struct types describe the same struct.
pub open spec fn struct_same(a: StructType, b: StructType) -> bool {
    ty_same(Type::Struct(a), Type::Struct(b))
}

/// A copy of a type, node by node.
fn clone_type(t: &Type) -> (r: Type)
    ensures
        ty_same(r, *t),
    decreases t,
{
    match t {
        Type::Scalar(x) => Type::Scalar(*x),
        Type::Vector(x) => Type::Vector(*x),
        Type::Matrix(x) => Type::Matrix(*x),
        Type::Image(x) => Type::Image(x.clone()),
        Type::CombinedImageSampler(x) => Type::CombinedImageSampler(x.clone()),
        Type::SampledImage(x) => Type::SampledImage(x.clone()),
        Type::StorageImage(x) => Type::StorageImage(x.clone()),
        Type::Sampler(x) => Type::Sampler(*x),
        Type::SubpassData(x) => Type::SubpassData(*x),
        Type::Array(x) => Type::Array(
            ArrayType {
                element_ty: Box::new(clone_type(&x.element_ty)),
                element_count: x.element_count,
                stride: x.stride,
            },
        ),
        Type::Struct(x) => Type::Struct(clone_struct(x)),
        Type::AccelStruct(x) => Type::AccelStruct(*x),
        Type::DeviceAddress(x) => Type::DeviceAddress(*x),
        Type::DevicePointer(x) => Type::DevicePointer(
            PointerType { pointee_ty: Box::new(clone_type(&x.pointee_ty)), store_cls: x.store_cls },
        ),
        Type::RayQuery(x) => Type::RayQuery(*x),
    }
}

/// A copy of a struct type, member by member.
fn clone_struct(x: &StructType) -> (r: StructType)
    ensures
        struct_same(r, *x),
    decreases x,
{
    let name = match &x.name {
        Some(n) => Some(n.clone()),
        None => None,
    };
    let mut members: Vec<StructMember> = Vec::new();
    let mut i: usize = 0;
    while i < x.members.len()
        invariant
            i <= x.members@.len(),
            members@.len() == i,
            forall|j: int| 0 <= j < i ==> member_same(#[trigger] members@[j], x.members@[j]),
        decreases x.members@.len() - i,
    {
        let m = &x.members[i];
        assert(decreases_to!(*x => m.ty)) by {
            assert(decreases_to!(x.members => x.members[i as int]));
        }
        let member_name = match &m.name {
            Some(n) => Some(n.clone()),
            None => None,
        };
        members.push(
            StructMember {
                name: member_name,
                offset: m.offset,
                ty: clone_type(&m.ty),
                access_ty: m.access_ty,
            },
        );
        i = i + 1;
    }
    let r = StructType { name, members };
    assert(struct_same(r, *x));
    r
}

impl Clone for Type {
    fn clone(&self) -> (r: Type)
        ensures
            ty_same(r, *self),
    {
        clone_type(self)
    }
}

impl Clone for ArrayType {
    fn clone(&self) -> (r: ArrayType)
        ensures
            ty_same(Type::Array(r), Type::Array(*self)),
    {
        ArrayType {
            element_ty: Box::new(clone_type(&self.element_ty)),
            element_count: self.element_count,
            stride: self.stride,
        }
    }
}

impl Clone for PointerType {
    fn clone(&self) -> (r: PointerType)
        ensures
            ty_same(Type::DevicePointer(r), Type::DevicePointer(*self)),
    {
        PointerType { pointee_ty: Box::new(clone_type(&self.pointee_ty)), store_cls: self.store_cls }
    }
}

impl Clone for StructType {
    fn clone(&self) -> (r: StructType)
        ensures
            struct_same(r, *self),
    {
        clone_struct(self)
    }
}

impl Clone for StructMember {
    fn clone(&self) -> (r: StructMember)
        ensures
            member_same(r, *self),
    {
        let name = match &self.name {
            Some(n) => Some(n.clone()),
            None => None,
        };
        StructMember { name, offset: self.offset, ty: clone_type(&self.ty), access_ty: self.access_ty }
    }
}

impl Clone for ImageType {
    fn clone(&self) -> (r: ImageType)
        ensures
            r == *self,
    {
        ImageType {
            scalar_ty: self.scalar_ty,
            dim: self.dim,
            is_depth: self.is_depth,
            is_array: self.is_array,
            is_multisampled: self.is_multisampled,
            is_sampled: self.is_sampled,
            fmt: self.fmt,
        }
    }
}

impl Clone for SampledImageType {
    fn clone(&self) -> (r: SampledImageType)
        ensures
            r == *self,
    {
        SampledImageType {
            scalar_ty: self.scalar_ty,
            dim: self.dim,
            is_array: self.is_array,
            is_multisampled: self.is_multisampled,
        }
    }
}

impl Clone for CombinedImageSamplerType {
    fn clone(&self) -> (r: CombinedImageSamplerType)
        ensures
            r == *self,
    {
        CombinedImageSamplerType { sampled_img_ty: self.sampled_img_ty.clone() }
    }
}

impl Clone for StorageImageType {
    fn clone(&self) -> (r: StorageImageType)
        ensures
            r == *self,
    {
        StorageImageType {
            dim: self.dim,
            is_array: self.is_array,
            is_multisampled: self.is_multisampled,
            fmt: self.fmt,
        }
    }
}

} // verus!
