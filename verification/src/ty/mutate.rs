//! Rewriting a type bottom-up.
use vstd::prelude::*;

use crate::ty::copy::ty_same;
use crate::ty::{ArrayType, StructMember, StructType, Type};

verus! {

/// `r` is a result that `t.mutate(f)` can give: the element type of an array
/// and the member types of a struct are rewritten first, then the node, with
/// its rewritten children, is handed to `f`, whose result is the result.
/// Other nodes are handed to `f` as they are.
pub open spec fn mutated<F: Fn(Type) -> Type>(t: Type, f: F, r: Type) -> bool
    decreases t,
{
    match t {
        Type::Array(a) => exists|e: Type|
            mutated(*a.element_ty, f, e) && #[trigger] call_ensures(
                f,
                (
                    Type::Array(
                        ArrayType {
                            element_ty: Box::new(e),
                            element_count: a.element_count,
                            stride: a.stride,
                        },
                    ),
                ),
                r,
            ),
        Type::Struct(s) => exists|st: StructType|
            {
                &&& #[trigger] call_ensures(f, (Type::Struct(st),), r)
                &&& st.name == s.name
                &&& st.members@.len() == s.members@.len()
                &&& forall|i: int|
                    0 <= i < s.members@.len() ==> {
                        &&& #[trigger] st.members@[i].name == s.members@[i].name
                        &&& st.members@[i].offset == s.members@[i].offset
                        &&& st.members@[i].access_ty == s.members@[i].access_ty
                        &&& mutated(s.members@[i].ty, f, st.members@[i].ty)
                    }
            },
        _ => call_ensures(f, (t,), r),
    }
}

/// `r` is `m` with its type rewritten by `f` as `mutated` says.
pub open spec fn member_mutated<F: Fn(Type) -> Type>(
    m: StructMember,
    f: F,
    r: StructMember,
) -> bool {
    &&& r.name == m.name
    &&& r.offset == m.offset
    &&& r.access_ty == m.access_ty
    &&& mutated(m.ty, f, r.ty)
}

fn mutate_members<F: Fn(Type) -> Type>(src: StructType, f: &F) -> (r: StructType)
    requires
        forall|t: Type| #[trigger] f.requires((t,)),
    ensures
        r.name == src.name,
        r.members@.len() == src.members@.len(),
        forall|i: int|
            0 <= i < src.members@.len() ==> member_mutated(
                src.members@[i],
                *f,
                #[trigger] r.members@[i],
            ),
    decreases src,
{
    let ghost src0 = src;
    let StructType { name, members } = src;
    let mut members = members;
    let ghost orig = members@;
    let mut out: Vec<StructMember> = Vec::new();
    while members.len() > 0
        invariant
            orig == src0.members@,
            src0 == src,
            out@.len() <= orig.len(),
            members@ == orig.subrange(out@.len() as int, orig.len() as int),
            forall|t: Type| #[trigger] f.requires((t,)),
            forall|j: int| 0 <= j < out@.len() ==> member_mutated(orig[j], *f, #[trigger] out@[j]),
        decreases members@.len(),
    {
        let ghost k = out@.len() as int;
        let m = members.remove(0);
        assert(m == orig[k]);
        let StructMember { name: member_name, offset, ty, access_ty } = m;
        assert(decreases_to!(src => ty)) by {
            assert(decreases_to!(src0.members => src0.members@[k]));
        }
        let new_ty = ty.mutate_impl(f);
        out.push(StructMember { name: member_name, offset, ty: new_ty, access_ty });
    }
    StructType { name, members: out }
}

impl Type {
    fn mutate_impl<F: Fn(Type) -> Type>(self, f: &F) -> (r: Type)
        requires
            forall|t: Type| #[trigger] f.requires((t,)),
        ensures
            mutated(self, *f, r),
        decreases self,
    {
        match self {
            Type::Array(src) => {
                let ArrayType { element_ty, element_count, stride } = src;
                let ghost inner = *element_ty;
                let e = (*element_ty).mutate_impl(f);
                let node = Type::Array(
                    ArrayType { element_ty: Box::new(e), element_count, stride },
                );
                let r = f(node);
                assert(mutated(inner, *f, e) && call_ensures(*f, (node,), r));
                r
            },
            Type::Struct(src) => {
                let st = mutate_members(src, f);
                let node = Type::Struct(st);
                let r = f(node);
                assert(call_ensures(*f, (Type::Struct(st),), r));
                r
            },
            other => f(other),
        }
    }

    /// Rewrites the type bottom-up: the element type of an array and the
    /// member types of a struct are rewritten first, and every node, with its
    /// rewritten children, is then replaced by what `f` makes of it.
    pub fn mutate<F: Fn(Type) -> Type>(self, f: F) -> (r: Type)
        requires
            forall|t: Type| #[trigger] f.requires((t,)),
        ensures
            mutated(self, f, r),
    {
        self.mutate_impl(&f)
    }
}


/// Every type describes the same type as itself.
pub proof fn lemma_ty_same_refl(t: Type)
    ensures
        ty_same(t, t),
    decreases t,
{
    match t {
        Type::Array(a) => lemma_ty_same_refl(*a.element_ty),
        Type::DevicePointer(p) => lemma_ty_same_refl(*p.pointee_ty),
        Type::Struct(s) => {
            assert forall|i: int| 0 <= i < s.members@.len() implies ty_same(
                s.members@[i].ty,
                s.members@[i].ty,
            ) by {
                assert(decreases_to!(s.members => s.members@[i]));
                lemma_ty_same_refl(s.members@[i].ty);
            }
        },
        _ => {},
    }
}

/// Rewriting with a function that hands every type back unchanged gives the
/// type back: every result that `t.mutate(f)` can give describes `t`.
pub proof fn lemma_mutate_identity<F: Fn(Type) -> Type>(t: Type, f: F, r: Type)
    requires
        forall|x: Type, y: Type| #[trigger] call_ensures(f, (x,), y) ==> y == x,
        mutated(t, f, r),
    ensures
        ty_same(r, t),
    decreases t,
{
    match t {
        Type::Array(a) => {
            let e = choose|e: Type|
                mutated(*a.element_ty, f, e) && #[trigger] call_ensures(
                    f,
                    (
                        Type::Array(
                            ArrayType {
                                element_ty: Box::new(e),
                                element_count: a.element_count,
                                stride: a.stride,
                            },
                        ),
                    ),
                    r,
                );
            lemma_mutate_identity(*a.element_ty, f, e);
        },
        Type::Struct(s) => {
            let st = choose|st: StructType|
                {
                    &&& #[trigger] call_ensures(f, (Type::Struct(st),), r)
                    &&& st.name == s.name
                    &&& st.members@.len() == s.members@.len()
                    &&& forall|i: int|
                        0 <= i < s.members@.len() ==> {
                            &&& #[trigger] st.members@[i].name == s.members@[i].name
                            &&& st.members@[i].offset == s.members@[i].offset
                            &&& st.members@[i].access_ty == s.members@[i].access_ty
                            &&& mutated(s.members@[i].ty, f, st.members@[i].ty)
                        }
                };
            assert forall|i: int| 0 <= i < st.members@.len() implies ty_same(
                st.members@[i].ty,
                s.members@[i].ty,
            ) by {
                assert(st.members@[i].name == s.members@[i].name);
                assert(decreases_to!(s.members => s.members@[i]));
                lemma_mutate_identity(s.members@[i].ty, f, st.members@[i].ty);
            }
        },
        _ => lemma_ty_same_refl(t),
    }
}

} // verus!
