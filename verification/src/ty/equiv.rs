//! Comparing type descriptions as the derived `==` compares them: names by
//! their text, members one by one.
use vstd::prelude::*;

use crate::spv::storage_class_eq;
use crate::ty::copy::ty_same;
use crate::ty::{StructMember, StructType, Type};

verus! {

/// The text of an optional name.
pub open spec fn opt_text(n: Option<String>) -> Option<Seq<char>> {
    match n {
        Some(s) => Some(s@),
        None => None,
    }
}

/// Two types are equal as descriptions: equal in every field, where names
/// are compared by their text and the members of structs one by one.
pub open spec fn ty_equiv(a: Type, b: Type) -> bool
    decreases a,
{
    match (a, b) {
        (Type::Array(x), Type::Array(y)) => {
            &&& x.element_count == y.element_count
            &&& x.stride == y.stride
            &&& ty_equiv(*x.element_ty, *y.element_ty)
        },
        (Type::DevicePointer(x), Type::DevicePointer(y)) => {
            &&& x.store_cls == y.store_cls
            &&& ty_equiv(*x.pointee_ty, *y.pointee_ty)
        },
        (Type::Struct(x), Type::Struct(y)) => {
            &&& opt_text(x.name) == opt_text(y.name)
            &&& x.members@.len() == y.members@.len()
            &&& forall|i: int|
                0 <= i < x.members@.len() ==> {
                    &&& opt_text(#[trigger] x.members@[i].name) == opt_text(y.members@[i].name)
                    &&& x.members@[i].offset == y.members@[i].offset
                    &&& x.members@[i].access_ty == y.members@[i].access_ty
                    &&& ty_equiv(x.members@[i].ty, y.members@[i].ty)
                }
        },
        _ => a == b,
    }
}

/// A copy describes its original: it compares with any type as the original
/// does.
pub proof fn lemma_same_equiv(a: Type, b: Type, t: Type)
    requires
        ty_same(a, b),
    ensures
        ty_equiv(a, t) == ty_equiv(b, t),
    decreases a,
{
    match (a, b, t) {
        (Type::Array(x), Type::Array(y), Type::Array(z)) => {
            lemma_same_equiv(*x.element_ty, *y.element_ty, *z.element_ty);
        },
        (Type::DevicePointer(x), Type::DevicePointer(y), Type::DevicePointer(z)) => {
            lemma_same_equiv(*x.pointee_ty, *y.pointee_ty, *z.pointee_ty);
        },
        (Type::Struct(x), Type::Struct(y), Type::Struct(z)) => {
            assert forall|i: int| 0 <= i < x.members@.len() && i < z.members@.len() implies ty_equiv(
                x.members@[i].ty,
                z.members@[i].ty,
            ) == ty_equiv(y.members@[i].ty, z.members@[i].ty) by {
                assert(x.members@[i].name == y.members@[i].name);
                assert(decreases_to!(x.members => x.members@[i]));
                lemma_same_equiv(x.members@[i].ty, y.members@[i].ty, z.members@[i].ty);
            }
            if ty_equiv(a, t) {
                assert forall|i: int| 0 <= i < y.members@.len() implies {
                    &&& opt_text(#[trigger] y.members@[i].name) == opt_text(z.members@[i].name)
                    &&& y.members@[i].offset == z.members@[i].offset
                    &&& y.members@[i].access_ty == z.members@[i].access_ty
                    &&& ty_equiv(y.members@[i].ty, z.members@[i].ty)
                } by {
                    assert(x.members@[i].name == y.members@[i].name);
                    assert(opt_text(x.members@[i].name) == opt_text(z.members@[i].name));
                }
            }
            if ty_equiv(b, t) {
                assert forall|i: int| 0 <= i < x.members@.len() implies {
                    &&& opt_text(#[trigger] x.members@[i].name) == opt_text(z.members@[i].name)
                    &&& x.members@[i].offset == z.members@[i].offset
                    &&& x.members@[i].access_ty == z.members@[i].access_ty
                    &&& ty_equiv(x.members@[i].ty, z.members@[i].ty)
                } by {
                    assert(x.members@[i].name == y.members@[i].name);
                    assert(opt_text(y.members@[i].name) == opt_text(z.members@[i].name));
                }
            }
        },
        _ => {},
    }
}

fn same_text(a: &Option<String>, b: &Option<String>) -> (r: bool)
    ensures
        r == (opt_text(*a) == opt_text(*b)),
{
    match (a, b) {
        (Some(x), Some(y)) => *x == *y,
        (None, None) => true,
        _ => false,
    }
}

fn same_members(a: &StructType, b: &StructType) -> (r: bool)
    ensures
        r == ty_equiv(Type::Struct(*a), Type::Struct(*b)),
    decreases a,
{
    if !same_text(&a.name, &b.name) || a.members.len() != b.members.len() {
        return false;
    }
    let mut i: usize = 0;
    while i < a.members.len()
        invariant
            i <= a.members@.len(),
            a.members@.len() == b.members@.len(),
            opt_text(a.name) == opt_text(b.name),
            forall|j: int|
                0 <= j < i ==> {
                    &&& opt_text(#[trigger] a.members@[j].name) == opt_text(b.members@[j].name)
                    &&& a.members@[j].offset == b.members@[j].offset
                    &&& a.members@[j].access_ty == b.members@[j].access_ty
                    &&& ty_equiv(a.members@[j].ty, b.members@[j].ty)
                },
        decreases a.members@.len() - i,
    {
        let x: &StructMember = &a.members[i];
        let y: &StructMember = &b.members[i];
        assert(decreases_to!(a.members => a.members@[i as int]));
        let same_offset = match (x.offset, y.offset) {
            (Some(p), Some(q)) => p == q,
            (None, None) => true,
            _ => false,
        };
        if !same_text(&x.name, &y.name) || !same_offset || x.access_ty != y.access_ty || !same_type(
            &x.ty,
            &y.ty,
        ) {
            return false;
        }
        i = i + 1;
    }
    true
}

/// Whether two types are equal as descriptions; see `ty_equiv`.
pub fn same_type(a: &Type, b: &Type) -> (r: bool)
    ensures
        r == ty_equiv(*a, *b),
    decreases a,
{
    match (a, b) {
        (Type::Scalar(x), Type::Scalar(y)) => *x == *y,
        (Type::Vector(x), Type::Vector(y)) => *x == *y,
        (Type::Matrix(x), Type::Matrix(y)) => *x == *y,
        (Type::Image(x), Type::Image(y)) => {
            let same_depth = match (x.is_depth, y.is_depth) {
                (Some(p), Some(q)) => p == q,
                (None, None) => true,
                _ => false,
            };
            let same_sampled = match (x.is_sampled, y.is_sampled) {
                (Some(p), Some(q)) => p == q,
                (None, None) => true,
                _ => false,
            };
            x.scalar_ty == y.scalar_ty && x.dim == y.dim && same_depth && x.is_array == y.is_array
                && x.is_multisampled == y.is_multisampled && same_sampled && x.fmt == y.fmt
        },
        (Type::CombinedImageSampler(x), Type::CombinedImageSampler(y)) => {
            let p = &x.sampled_img_ty;
            let q = &y.sampled_img_ty;
            p.scalar_ty == q.scalar_ty && p.dim == q.dim && p.is_array == q.is_array
                && p.is_multisampled == q.is_multisampled
        },
        (Type::SampledImage(p), Type::SampledImage(q)) => {
            p.scalar_ty == q.scalar_ty && p.dim == q.dim && p.is_array == q.is_array
                && p.is_multisampled == q.is_multisampled
        },
        (Type::StorageImage(p), Type::StorageImage(q)) => {
            p.dim == q.dim && p.is_array == q.is_array && p.is_multisampled == q.is_multisampled
                && p.fmt == q.fmt
        },
        (Type::Sampler(_), Type::Sampler(_)) => true,
        (Type::SubpassData(x), Type::SubpassData(y)) => *x == *y,
        (Type::Array(x), Type::Array(y)) => {
            let same_count = match (x.element_count, y.element_count) {
                (Some(p), Some(q)) => p == q,
                (None, None) => true,
                _ => false,
            };
            let same_stride = match (x.stride, y.stride) {
                (Some(p), Some(q)) => p == q,
                (None, None) => true,
                _ => false,
            };
            same_count && same_stride && same_type(&x.element_ty, &y.element_ty)
        },
        (Type::Struct(x), Type::Struct(y)) => same_members(x, y),
        (Type::AccelStruct(_), Type::AccelStruct(_)) => true,
        (Type::DeviceAddress(_), Type::DeviceAddress(_)) => true,
        (Type::DevicePointer(x), Type::DevicePointer(y)) => storage_class_eq(x.store_cls, y.store_cls)
            && same_type(&x.pointee_ty, &y.pointee_ty),
        (Type::RayQuery(_), Type::RayQuery(_)) => true,
        _ => false,
    }
}

} // verus!
