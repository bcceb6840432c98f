//! Sizes, member offsets and access kinds of SPIR-V types.
use vstd::prelude::*;

use crate::ty::access::{access_or, AccessType};
use crate::ty::{
    AccelStructType,
    ArrayType,
    CombinedImageSamplerType,
    DeviceAddressType,
    ImageType,
    MatrixType,
    PointerType,
    RayQueryType,
    SampledImageType,
    SamplerType,
    ScalarType,
    SpirvType,
    StorageImageType,
    StructMember,
    StructType,
    SubpassDataType,
    Type,
    VectorType,
};

verus! {

broadcast use vstd::layout::layout_of_primitives;

/// Byte size of a scalar: `bits / 8` for numbers, none for `void` and `bool`.
pub open spec fn scalar_min_size(s: ScalarType) -> Option<usize> {
    match s {
        ScalarType::Integer { bits, .. } => Some((bits / 8) as usize),
        ScalarType::Float { bits } => Some((bits / 8) as usize),
        _ => None,
    }
}

/// Byte size of a vector: the scalar size times the component count.
pub open spec fn vector_min_size(v: VectorType) -> Option<usize> {
    match scalar_min_size(v.scalar_ty) {
        Some(z) => Some((z * v.scalar_count) as usize),
        None => None,
    }
}

/// Byte size of a matrix: the stride times the vector count.
pub open spec fn matrix_min_size(m: MatrixType) -> Option<usize> {
    match m.stride {
        Some(s) => Some((s * m.vector_count) as usize),
        None => None,
    }
}

/// The element count of an array, zero when it is only known at runtime.
pub open spec fn count_or_zero(c: Option<u32>) -> int {
    match c {
        Some(n) => n as int,
        None => 0,
    }
}

/// The element count of an array, at least one.
pub open spec fn count_at_least_one(c: Option<u32>) -> int {
    if count_or_zero(c) >= 1 {
        count_or_zero(c)
    } else {
        1
    }
}

/// Minimum byte size of an array: the stride times the element count,
/// counting at least one element.
pub open spec fn array_min_size(a: ArrayType) -> Option<usize> {
    match a.stride {
        Some(s) => Some((s * count_at_least_one(a.element_count)) as usize),
        None => None,
    }
}

/// Byte size of an array: the stride times the element count, zero when the
/// count is only known at runtime.
pub open spec fn array_size(a: ArrayType) -> Option<usize> {
    match a.stride {
        Some(s) => Some((s * count_or_zero(a.element_count)) as usize),
        None => None,
    }
}

/// Offset of an array element: the stride times its index.
pub open spec fn array_member_offset(a: ArrayType, i: usize) -> Option<usize> {
    match a.stride {
        Some(s) => Some((s * i) as usize),
        None => None,
    }
}

/// Offset of a struct member, if the member exists and has one.
pub open spec fn struct_member_offset(s: StructType, i: usize) -> Option<usize> {
    if i < s.members@.len() {
        s.members@[i as int].offset
    } else {
        None
    }
}

/// Byte size of a device address or pointer.
pub open spec fn address_size() -> Option<usize> {
    Some(8)
}

/// Minimum size of a type: scalars by their width, vectors by scalar size
/// times count, matrices by stride times vector count, arrays by stride times
/// element count (counting at least one element), structs by the offset of
/// the last member plus its minimum size, pointers and device addresses by 8.
pub open spec fn ty_min_size(t: Type) -> Option<usize>
    decreases t,
{
    match t {
        Type::Scalar(s) => scalar_min_size(s),
        Type::Vector(v) => vector_min_size(v),
        Type::Matrix(m) => matrix_min_size(m),
        Type::Array(a) => array_min_size(a),
        Type::Struct(s) => if s.members@.len() == 0 {
            None
        } else {
            let m = s.members@[s.members@.len() - 1];
            match m.offset {
                Some(o) => match ty_min_size(m.ty) {
                    Some(z) => Some((o + z) as usize),
                    None => None,
                },
                None => None,
            }
        },
        Type::DeviceAddress(_) => address_size(),
        Type::DevicePointer(_) => address_size(),
        _ => None,
    }
}

/// Size of a type: as `ty_min_size`, except that arrays count their actual
/// element count (zero when only known at runtime) and structs add the size of
/// the last member.
pub open spec fn ty_size(t: Type) -> Option<usize>
    decreases t,
{
    match t {
        Type::Array(a) => array_size(a),
        Type::Struct(s) => if s.members@.len() == 0 {
            None
        } else {
            let m = s.members@[s.members@.len() - 1];
            match m.offset {
                Some(o) => match ty_size(m.ty) {
                    Some(z) => Some((o + z) as usize),
                    None => None,
                },
                None => None,
            }
        },
        _ => ty_min_size(t),
    }
}

/// A type has a size exactly when it has a minimum size, and its size is
/// never more than its minimum size: only a runtime-sized array (counted as
/// one element by the minimum size, as none by the size) can make them
/// differ.
pub proof fn lemma_size_within_min_size(t: Type)
    requires
        ty_sizes_fit(t),
    ensures
        ty_size(t) is Some <==> ty_min_size(t) is Some,
        ty_size(t) matches Some(z) ==> z <= ty_min_size(t)->0,
    decreases t,
{
    match t {
        Type::Array(a) => {
            if let Some(st) = a.stride {
                assert(st * count_or_zero(a.element_count) <= st * count_at_least_one(a.element_count))
                    by (nonlinear_arith)
                    requires
                        st >= 0,
                        count_or_zero(a.element_count) <= count_at_least_one(a.element_count),
                ;
                assert(0 <= st * count_or_zero(a.element_count)) by (nonlinear_arith)
                    requires
                        st >= 0,
                        count_or_zero(a.element_count) >= 0,
                ;
            }
        },
        Type::Struct(s) => {
            if s.members@.len() > 0 {
                let m = s.members@[s.members@.len() - 1];
                assert(decreases_to!(s.members => s.members@[s.members@.len() - 1]));
                if m.offset is Some {
                    lemma_size_within_min_size(m.ty);
                }
            }
        },
        _ => {},
    }
}

/// Sizes agree with widths, counts and offsets: a number of `bits` bits
/// takes `bits / 8` bytes; a vector takes its component count times the
/// size of its scalar type; an array of `n` elements takes exactly the
/// offset its element `n` (one past the last) would have, and counts the
/// same minimum size when it has at least one element.
pub proof fn lemma_layout_relations(t: Type)
    requires
        ty_sizes_fit(t),
    ensures
        t matches Type::Scalar(ScalarType::Integer { bits, .. }) ==> ty_size(t) matches Some(z) && z
            * 8 <= bits < z * 8 + 8,
        t matches Type::Scalar(ScalarType::Float { bits }) ==> ty_size(t) matches Some(z) && z * 8
            <= bits < z * 8 + 8,
        t matches Type::Vector(v) ==> ty_size(t) == match ty_size(Type::Scalar(v.scalar_ty)) {
            Some(z) => Some((z * v.scalar_count) as usize),
            None => None::<usize>,
        },
        t matches Type::Array(a) ==> match a.element_count {
            Some(n) => (n <= usize::MAX ==> ty_size(t) == ty_member_offset(t, n as usize)) && (n >= 1
                ==> ty_size(t) == ty_min_size(t)),
            None => true,
        },
{
}

/// A struct that ends in a runtime-sized array, such as a storage buffer
/// block: its size is the offset of that array (which holds no element
/// yet), and its minimum size counts one element of it.
pub proof fn lemma_runtime_array_tail(s: StructType)
    requires
        s.members@.len() > 0,
        s.members@.last().offset is Some,
        s.members@.last().ty matches Type::Array(a) && a.element_count is None && a.stride is Some,
        ty_sizes_fit(Type::Struct(s)),
    ensures
        ty_size(Type::Struct(s)) == Some(s.members@.last().offset->0),
        ty_min_size(Type::Struct(s)) == Some(
            (s.members@.last().offset->0 + s.members@.last().ty->Array_0.stride->0) as usize,
        ),
{
    let a = s.members@.last().ty->Array_0;
    let st = a.stride->0;
    assert(count_or_zero(a.element_count) == 0);
    assert(count_at_least_one(a.element_count) == 1);
    assert(st * 0 == 0 && st * 1 == st) by (nonlinear_arith);
    assert(array_size(a) == Some(0usize));
    assert(array_min_size(a) == Some(st));
}

/// The arithmetic of `vector_min_size` stays within `usize`.
pub open spec fn vector_fits(v: VectorType) -> bool {
    scalar_min_size(v.scalar_ty) matches Some(z) ==> z * v.scalar_count <= usize::MAX
}

/// The arithmetic of `matrix_min_size` stays within `usize`.
pub open spec fn matrix_fits(m: MatrixType) -> bool {
    m.stride matches Some(s) ==> s * m.vector_count <= usize::MAX
}

/// The arithmetic of `array_min_size`, and so of `array_size`, stays within
/// `usize`.
pub open spec fn array_fits(a: ArrayType) -> bool {
    a.stride matches Some(s) ==> s * count_at_least_one(a.element_count) <= usize::MAX
}

/// The arithmetic of `ty_min_size` and `ty_size` stays within `usize`.
pub open spec fn ty_sizes_fit(t: Type) -> bool
    decreases t,
{
    match t {
        Type::Vector(v) => vector_fits(v),
        Type::Matrix(m) => matrix_fits(m),
        Type::Array(a) => array_fits(a),
        Type::Struct(s) => if s.members@.len() == 0 {
            true
        } else {
            let m = s.members@[s.members@.len() - 1];
            m.offset matches Some(o) ==> {
                &&& ty_sizes_fit(m.ty)
                &&& ty_min_size(m.ty) matches Some(z) ==> o + z <= usize::MAX
                &&& ty_size(m.ty) matches Some(z) ==> o + z <= usize::MAX
            }
        },
        _ => true,
    }
}

/// Offset of a member: stride times index in arrays, the member's offset in
/// structs, none otherwise.
pub open spec fn ty_member_offset(t: Type, i: usize) -> Option<usize> {
    match t {
        Type::Array(a) => array_member_offset(a, i),
        Type::Struct(s) => struct_member_offset(s, i),
        _ => None,
    }
}

/// The arithmetic of `array_member_offset` stays within `usize`.
pub open spec fn array_offset_fits(a: ArrayType, i: usize) -> bool {
    a.stride matches Some(s) ==> s * i <= usize::MAX
}

/// The arithmetic of `ty_member_offset` stays within `usize`.
pub open spec fn ty_offset_fits(t: Type, i: usize) -> bool {
    match t {
        Type::Array(a) => array_offset_fits(a, i),
        _ => true,
    }
}

/// One step of combining the access kinds of struct members.
pub open spec fn access_step(seed: Option<AccessType>, x: AccessType) -> Option<AccessType> {
    match seed {
        None => Some(x),
        Some(AccessType::ReadOnly) => match x {
            AccessType::ReadOnly => Some(AccessType::ReadOnly),
            _ => Some(AccessType::ReadWrite),
        },
        Some(AccessType::WriteOnly) => match x {
            AccessType::WriteOnly => Some(AccessType::WriteOnly),
            _ => Some(AccessType::ReadWrite),
        },
        Some(AccessType::ReadWrite) => Some(AccessType::ReadWrite),
    }
}

/// The access kinds of the members combined from first to last.
pub open spec fn fold_access(ms: Seq<StructMember>) -> Option<AccessType>
    decreases ms.len(),
{
    if ms.len() == 0 {
        None
    } else {
        access_step(fold_access(ms.drop_last()), ms.last().access_ty)
    }
}

/// Every member is accessed as `a`.
pub open spec fn all_access(ms: Seq<StructMember>, a: AccessType) -> bool {
    forall|i: int| 0 <= i < ms.len() ==> #[trigger] ms[i].access_ty == a
}

/// Combining the members' access kinds: none without members, read-only
/// exactly when every member is read-only, write-only exactly when every
/// member is write-only, and read-write otherwise.
pub proof fn lemma_fold_access(ms: Seq<StructMember>)
    ensures
        fold_access(ms) is None <==> ms.len() == 0,
        fold_access(ms) == Some(AccessType::ReadOnly) <==> ms.len() > 0 && all_access(
            ms,
            AccessType::ReadOnly,
        ),
        fold_access(ms) == Some(AccessType::WriteOnly) <==> ms.len() > 0 && all_access(
            ms,
            AccessType::WriteOnly,
        ),
        fold_access(ms) == Some(AccessType::ReadWrite) <==> ms.len() > 0 && !all_access(
            ms,
            AccessType::ReadOnly,
        ) && !all_access(ms, AccessType::WriteOnly),
    decreases ms.len(),
{
    if ms.len() > 0 {
        let prev = ms.drop_last();
        lemma_fold_access(prev);
        assert forall|a: AccessType| all_access(ms, a) <==> all_access(prev, a) && ms.last().access_ty
            == a by {
            if all_access(ms, a) {
                assert forall|i: int| 0 <= i < prev.len() implies #[trigger] prev[i].access_ty == a by {
                    assert(prev[i] == ms[i]);
                }
                assert(ms[ms.len() - 1].access_ty == a);
            }
            if all_access(prev, a) && ms.last().access_ty == a {
                assert forall|i: int| 0 <= i < ms.len() implies #[trigger] ms[i].access_ty == a by {
                    if i < prev.len() {
                        assert(prev[i] == ms[i]);
                    }
                }
            }
        }
    }
}

/// How a type can be accessed: arrays and pointers as their element or
/// pointee, structs by combining their members, other types not at all.
pub open spec fn ty_access(t: Type) -> Option<AccessType>
    decreases t,
{
    match t {
        Type::Array(a) => ty_access(*a.element_ty),
        Type::Struct(s) => fold_access(s.members@),
        Type::DevicePointer(p) => ty_access(*p.pointee_ty),
        _ => None,
    }
}

/// Minimum size of a type; see `ty_min_size`.
pub fn type_min_size(t: &Type) -> (r: Option<usize>)
    requires
        ty_sizes_fit(*t),
    ensures
        r == ty_min_size(*t),
    decreases t,
{
    match t {
        Type::Scalar(x) => x.min_size(),
        Type::Vector(x) => x.min_size(),
        Type::Matrix(x) => x.min_size(),
        Type::Array(x) => x.min_size(),
        Type::Struct(x) => {
            let n = x.members.len();
            if n == 0 {
                return None;
            }
            let last = &x.members[n - 1];
            let o = match last.offset {
                Some(o) => o,
                None => return None,
            };
            assert(x.members@[n - 1] == *last);
            let z = match type_min_size(&last.ty) {
                Some(z) => z,
                None => return None,
            };
            Some(o + z)
        },
        Type::DeviceAddress(_) => Some(core::mem::size_of::<u64>()),
        Type::DevicePointer(_) => Some(core::mem::size_of::<u64>()),
        _ => None,
    }
}

/// Size of a type; see `ty_size`.
pub fn type_size(t: &Type) -> (r: Option<usize>)
    requires
        ty_sizes_fit(*t),
    ensures
        r == ty_size(*t),
    decreases t,
{
    match t {
        Type::Array(x) => x.size(),
        Type::Struct(x) => {
            let n = x.members.len();
            if n == 0 {
                return None;
            }
            let last = &x.members[n - 1];
            let o = match last.offset {
                Some(o) => o,
                None => return None,
            };
            assert(x.members@[n - 1] == *last);
            let z = match type_size(&last.ty) {
                Some(z) => z,
                None => return None,
            };
            Some(o + z)
        },
        _ => type_min_size(t),
    }
}

/// Combine the access kinds of struct members; see `fold_access`.
pub fn members_access(ms: &Vec<StructMember>) -> (r: Option<AccessType>)
    ensures
        r == fold_access(ms@),
{
    let mut seed: Option<AccessType> = None;
    let mut i: usize = 0;
    while i < ms.len()
        invariant
            0 <= i <= ms@.len(),
            seed == fold_access(ms@.take(i as int)),
        decreases ms@.len() - i,
    {
        let x = ms[i].access_ty;
        seed = match seed {
            None => Some(x),
            Some(AccessType::ReadOnly) => match x {
                AccessType::ReadOnly => Some(AccessType::ReadOnly),
                _ => Some(AccessType::ReadWrite),
            },
            Some(AccessType::WriteOnly) => match x {
                AccessType::WriteOnly => Some(AccessType::WriteOnly),
                _ => Some(AccessType::ReadWrite),
            },
            Some(AccessType::ReadWrite) => Some(AccessType::ReadWrite),
        };
        assert(ms@.take(i + 1).drop_last() =~= ms@.take(i as int));
        i = i + 1;
    }
    assert(ms@.take(ms@.len() as int) =~= ms@);
    seed
}

/// How a type can be accessed; see `ty_access`.
pub fn type_access(t: &Type) -> (r: Option<AccessType>)
    ensures
        r == ty_access(*t),
    decreases t,
{
    match t {
        Type::Array(x) => type_access(&x.element_ty),
        Type::Struct(x) => members_access(&x.members),
        Type::DevicePointer(x) => type_access(&x.pointee_ty),
        _ => None,
    }
}

/// Combining member access kinds agrees with `|`: once one member is seen,
/// each further member joins by `access_or`.
pub proof fn lemma_access_step_is_or(seed: AccessType, x: AccessType)
    ensures
        access_step(Some(seed), x) == Some(access_or(seed, x)),
{
}

/// The access kind of a non-empty struct is the `|` of the access kind of its
/// members except the last with that of the last.
pub proof fn lemma_fold_access_push(ms: Seq<StructMember>, m: StructMember)
    ensures
        fold_access(ms.push(m)) == match fold_access(ms) {
            None => Some(m.access_ty),
            Some(a) => Some(access_or(a, m.access_ty)),
        },
{
    assert(ms.push(m).drop_last() =~= ms);
}

/// Arrays never have a smaller minimum size than size.
pub proof fn lemma_array_min_size_covers_size(a: ArrayType)
    ensures
        ty_min_size(Type::Array(a)) is Some <==> ty_size(Type::Array(a)) is Some,
        ty_sizes_fit(Type::Array(a)) ==> match (ty_min_size(Type::Array(a)), ty_size(
            Type::Array(a),
        )) {
            (Some(x), Some(y)) => y <= x,
            _ => true,
        },
{
    if let Some(s) = a.stride {
        let c = count_or_zero(a.element_count);
        let m = count_at_least_one(a.element_count);
        assert(c <= m);
        assert(s * c <= s * m) by (nonlinear_arith)
            requires
                c <= m,
                0 <= s,
        ;
        assert(0 <= s * c) by (nonlinear_arith)
            requires
                0 <= c,
                0 <= s,
        ;
    }
}

impl SpirvType for ScalarType {
    open spec fn spec_min_size(&self) -> Option<usize> {
        scalar_min_size(*self)
    }

    open spec fn spec_size(&self) -> Option<usize> {
        scalar_min_size(*self)
    }

    open spec fn spec_member_offset(&self, member_index: usize) -> Option<usize> {
        None
    }

    open spec fn spec_access_ty(&self) -> Option<AccessType> {
        None
    }

    open spec fn sizes_fit(&self) -> bool {
        true
    }

    open spec fn offset_fits(&self, member_index: usize) -> bool {
        true
    }

    fn min_size(&self) -> (r: Option<usize>) {
        proof {
            assert(self.sizes_fit() == true);
            assert(self.spec_min_size() == scalar_min_size(*self));
        }
        match self {
            Self::Void => None,
            Self::Boolean => None,
            Self::Integer { bits, .. } => Some((*bits / 8) as usize),
            Self::Float { bits } => Some((*bits / 8) as usize),
        }
    }

    fn size(&self) -> (r: Option<usize>) {
        proof {
            assert(self.sizes_fit() == true);
            assert(self.spec_min_size() == scalar_min_size(*self));
            assert(self.spec_size() == scalar_min_size(*self));
        }
        self.min_size()
    }

    fn member_offset(&self, member_index: usize) -> (r: Option<usize>) {
        proof {
            assert(self.offset_fits(member_index) == true);
            assert(self.spec_member_offset(member_index) == None::<usize>);
        }
        None
    }

    fn access_ty(&self) -> (r: Option<AccessType>) {
        proof {
            assert(self.spec_access_ty() == None::<AccessType>);
        }
        None
    }
}

impl SpirvType for VectorType {
    open spec fn spec_min_size(&self) -> Option<usize> {
        vector_min_size(*self)
    }

    open spec fn spec_size(&self) -> Option<usize> {
        vector_min_size(*self)
    }

    open spec fn spec_member_offset(&self, member_index: usize) -> Option<usize> {
        None
    }

    open spec fn spec_access_ty(&self) -> Option<AccessType> {
        None
    }

    open spec fn sizes_fit(&self) -> bool {
        vector_fits(*self)
    }

    open spec fn offset_fits(&self, member_index: usize) -> bool {
        true
    }

    fn min_size(&self) -> (r: Option<usize>) {
        proof {
            assert(self.sizes_fit() == vector_fits(*self));
            assert(self.spec_min_size() == vector_min_size(*self));
        }
        match self.scalar_ty.min_size() {
            Some(z) => Some(z * self.scalar_count as usize),
            None => None,
        }
    }

    fn size(&self) -> (r: Option<usize>) {
        proof {
            assert(self.sizes_fit() == vector_fits(*self));
            assert(self.spec_min_size() == vector_min_size(*self));
            assert(self.spec_size() == vector_min_size(*self));
        }
        self.min_size()
    }

    fn member_offset(&self, member_index: usize) -> (r: Option<usize>) {
        proof {
            assert(self.offset_fits(member_index) == true);
            assert(self.spec_member_offset(member_index) == None::<usize>);
        }
        None
    }

    fn access_ty(&self) -> (r: Option<AccessType>) {
        proof {
            assert(self.spec_access_ty() == None::<AccessType>);
        }
        None
    }
}

impl SpirvType for MatrixType {
    open spec fn spec_min_size(&self) -> Option<usize> {
        matrix_min_size(*self)
    }

    open spec fn spec_size(&self) -> Option<usize> {
        matrix_min_size(*self)
    }

    open spec fn spec_member_offset(&self, member_index: usize) -> Option<usize> {
        None
    }

    open spec fn spec_access_ty(&self) -> Option<AccessType> {
        None
    }

    open spec fn sizes_fit(&self) -> bool {
        matrix_fits(*self)
    }

    open spec fn offset_fits(&self, member_index: usize) -> bool {
        true
    }

    fn min_size(&self) -> (r: Option<usize>) {
        proof {
            assert(self.sizes_fit() == matrix_fits(*self));
            assert(self.spec_min_size() == matrix_min_size(*self));
        }
        match self.stride {
            Some(stride) => Some(stride * self.vector_count as usize),
            None => None,
        }
    }

    fn size(&self) -> (r: Option<usize>) {
        proof {
            assert(self.sizes_fit() == matrix_fits(*self));
            assert(self.spec_min_size() == matrix_min_size(*self));
            assert(self.spec_size() == matrix_min_size(*self));
        }
        self.min_size()
    }

    fn member_offset(&self, member_index: usize) -> (r: Option<usize>) {
        proof {
            assert(self.offset_fits(member_index) == true);
            assert(self.spec_member_offset(member_index) == None::<usize>);
        }
        None
    }

    fn access_ty(&self) -> (r: Option<AccessType>) {
        proof {
            assert(self.spec_access_ty() == None::<AccessType>);
        }
        None
    }
}

impl SpirvType for ImageType {
    open spec fn spec_min_size(&self) -> Option<usize> {
        None
    }

    open spec fn spec_size(&self) -> Option<usize> {
        None
    }

    open spec fn spec_member_offset(&self, member_index: usize) -> Option<usize> {
        None
    }

    open spec fn spec_access_ty(&self) -> Option<AccessType> {
        None
    }

    open spec fn sizes_fit(&self) -> bool {
        true
    }

    open spec fn offset_fits(&self, member_index: usize) -> bool {
        true
    }

    fn min_size(&self) -> (r: Option<usize>) {
        proof {
            assert(self.sizes_fit() == true);
            assert(self.spec_min_size() == None::<usize>);
        }
        None
    }

    fn size(&self) -> (r: Option<usize>) {
        proof {
            assert(self.sizes_fit() == true);
            assert(self.spec_min_size() == None::<usize>);
            assert(self.spec_size() == None::<usize>);
        }
        None
    }

    fn member_offset(&self, member_index: usize) -> (r: Option<usize>) {
        proof {
            assert(self.offset_fits(member_index) == true);
            assert(self.spec_member_offset(member_index) == None::<usize>);
        }
        None
    }

    fn access_ty(&self) -> (r: Option<AccessType>) {
        proof {
            assert(self.spec_access_ty() == None::<AccessType>);
        }
        None
    }
}

impl SpirvType for SamplerType {
    open spec fn spec_min_size(&self) -> Option<usize> {
        None
    }

    open spec fn spec_size(&self) -> Option<usize> {
        None
    }

    open spec fn spec_member_offset(&self, member_index: usize) -> Option<usize> {
        None
    }

    open spec fn spec_access_ty(&self) -> Option<AccessType> {
        None
    }

    open spec fn sizes_fit(&self) -> bool {
        true
    }

    open spec fn offset_fits(&self, member_index: usize) -> bool {
        true
    }

    fn min_size(&self) -> (r: Option<usize>) {
        proof {
            assert(self.sizes_fit() == true);
            assert(self.spec_min_size() == None::<usize>);
        }
        None
    }

    fn size(&self) -> (r: Option<usize>) {
        proof {
            assert(self.sizes_fit() == true);
            assert(self.spec_min_size() == None::<usize>);
            assert(self.spec_size() == None::<usize>);
        }
        None
    }

    fn member_offset(&self, member_index: usize) -> (r: Option<usize>) {
        proof {
            assert(self.offset_fits(member_index) == true);
            assert(self.spec_member_offset(member_index) == None::<usize>);
        }
        None
    }

    fn access_ty(&self) -> (r: Option<AccessType>) {
        proof {
            assert(self.spec_access_ty() == None::<AccessType>);
        }
        None
    }
}

impl SpirvType for CombinedImageSamplerType {
    open spec fn spec_min_size(&self) -> Option<usize> {
        None
    }

    open spec fn spec_size(&self) -> Option<usize> {
        None
    }

    open spec fn spec_member_offset(&self, member_index: usize) -> Option<usize> {
        None
    }

    open spec fn spec_access_ty(&self) -> Option<AccessType> {
        None
    }

    open spec fn sizes_fit(&self) -> bool {
        true
    }

    open spec fn offset_fits(&self, member_index: usize) -> bool {
        true
    }

    fn min_size(&self) -> (r: Option<usize>) {
        proof {
            assert(self.sizes_fit() == true);
            assert(self.spec_min_size() == None::<usize>);
        }
        None
    }

    fn size(&self) -> (r: Option<usize>) {
        proof {
            assert(self.sizes_fit() == true);
            assert(self.spec_min_size() == None::<usize>);
            assert(self.spec_size() == None::<usize>);
        }
        None
    }

    fn member_offset(&self, member_index: usize) -> (r: Option<usize>) {
        proof {
            assert(self.offset_fits(member_index) == true);
            assert(self.spec_member_offset(member_index) == None::<usize>);
        }
        None
    }

    fn access_ty(&self) -> (r: Option<AccessType>) {
        proof {
            assert(self.spec_access_ty() == None::<AccessType>);
        }
        None
    }
}

impl SpirvType for SampledImageType {
    open spec fn spec_min_size(&self) -> Option<usize> {
        None
    }

    open spec fn spec_size(&self) -> Option<usize> {
        None
    }

    open spec fn spec_member_offset(&self, member_index: usize) -> Option<usize> {
        None
    }

    open spec fn spec_access_ty(&self) -> Option<AccessType> {
        None
    }

    open spec fn sizes_fit(&self) -> bool {
        true
    }

    open spec fn offset_fits(&self, member_index: usize) -> bool {
        true
    }

    fn min_size(&self) -> (r: Option<usize>) {
        proof {
            assert(self.sizes_fit() == true);
            assert(self.spec_min_size() == None::<usize>);
        }
        None
    }

    fn size(&self) -> (r: Option<usize>) {
        proof {
            assert(self.sizes_fit() == true);
            assert(self.spec_min_size() == None::<usize>);
            assert(self.spec_size() == None::<usize>);
        }
        None
    }

    fn member_offset(&self, member_index: usize) -> (r: Option<usize>) {
        proof {
            assert(self.offset_fits(member_index) == true);
            assert(self.spec_member_offset(member_index) == None::<usize>);
        }
        None
    }

    fn access_ty(&self) -> (r: Option<AccessType>) {
        proof {
            assert(self.spec_access_ty() == None::<AccessType>);
        }
        None
    }
}

impl SpirvType for StorageImageType {
    open spec fn spec_min_size(&self) -> Option<usize> {
        None
    }

    open spec fn spec_size(&self) -> Option<usize> {
        None
    }

    open spec fn spec_member_offset(&self, member_index: usize) -> Option<usize> {
        None
    }

    open spec fn spec_access_ty(&self) -> Option<AccessType> {
        None
    }

    open spec fn sizes_fit(&self) -> bool {
        true
    }

    open spec fn offset_fits(&self, member_index: usize) -> bool {
        true
    }

    fn min_size(&self) -> (r: Option<usize>) {
        proof {
            assert(self.sizes_fit() == true);
            assert(self.spec_min_size() == None::<usize>);
        }
        None
    }

    fn size(&self) -> (r: Option<usize>) {
        proof {
            assert(self.sizes_fit() == true);
            assert(self.spec_min_size() == None::<usize>);
            assert(self.spec_size() == None::<usize>);
        }
        None
    }

    fn member_offset(&self, member_index: usize) -> (r: Option<usize>) {
        proof {
            assert(self.offset_fits(member_index) == true);
            assert(self.spec_member_offset(member_index) == None::<usize>);
        }
        None
    }

    fn access_ty(&self) -> (r: Option<AccessType>) {
        proof {
            assert(self.spec_access_ty() == None::<AccessType>);
        }
        None
    }
}

impl SpirvType for SubpassDataType {
    open spec fn spec_min_size(&self) -> Option<usize> {
        None
    }

    open spec fn spec_size(&self) -> Option<usize> {
        None
    }

    open spec fn spec_member_offset(&self, member_index: usize) -> Option<usize> {
        None
    }

    open spec fn spec_access_ty(&self) -> Option<AccessType> {
        None
    }

    open spec fn sizes_fit(&self) -> bool {
        true
    }

    open spec fn offset_fits(&self, member_index: usize) -> bool {
        true
    }

    fn min_size(&self) -> (r: Option<usize>) {
        proof {
            assert(self.sizes_fit() == true);
            assert(self.spec_min_size() == None::<usize>);
        }
        None
    }

    fn size(&self) -> (r: Option<usize>) {
        proof {
            assert(self.sizes_fit() == true);
            assert(self.spec_min_size() == None::<usize>);
            assert(self.spec_size() == None::<usize>);
        }
        None
    }

    fn member_offset(&self, member_index: usize) -> (r: Option<usize>) {
        proof {
            assert(self.offset_fits(member_index) == true);
            assert(self.spec_member_offset(member_index) == None::<usize>);
        }
        None
    }

    fn access_ty(&self) -> (r: Option<AccessType>) {
        proof {
            assert(self.spec_access_ty() == None::<AccessType>);
        }
        None
    }
}

impl SpirvType for AccelStructType {
    open spec fn spec_min_size(&self) -> Option<usize> {
        None
    }

    open spec fn spec_size(&self) -> Option<usize> {
        None
    }

    open spec fn spec_member_offset(&self, member_index: usize) -> Option<usize> {
        None
    }

    open spec fn spec_access_ty(&self) -> Option<AccessType> {
        None
    }

    open spec fn sizes_fit(&self) -> bool {
        true
    }

    open spec fn offset_fits(&self, member_index: usize) -> bool {
        true
    }

    fn min_size(&self) -> (r: Option<usize>) {
        proof {
            assert(self.sizes_fit() == true);
            assert(self.spec_min_size() == None::<usize>);
        }
        None
    }

    fn size(&self) -> (r: Option<usize>) {
        proof {
            assert(self.sizes_fit() == true);
            assert(self.spec_min_size() == None::<usize>);
            assert(self.spec_size() == None::<usize>);
        }
        None
    }

    fn member_offset(&self, member_index: usize) -> (r: Option<usize>) {
        proof {
            assert(self.offset_fits(member_index) == true);
            assert(self.spec_member_offset(member_index) == None::<usize>);
        }
        None
    }

    fn access_ty(&self) -> (r: Option<AccessType>) {
        proof {
            assert(self.spec_access_ty() == None::<AccessType>);
        }
        None
    }
}

impl SpirvType for RayQueryType {
    open spec fn spec_min_size(&self) -> Option<usize> {
        None
    }

    open spec fn spec_size(&self) -> Option<usize> {
        None
    }

    open spec fn spec_member_offset(&self, member_index: usize) -> Option<usize> {
        None
    }

    open spec fn spec_access_ty(&self) -> Option<AccessType> {
        None
    }

    open spec fn sizes_fit(&self) -> bool {
        true
    }

    open spec fn offset_fits(&self, member_index: usize) -> bool {
        true
    }

    fn min_size(&self) -> (r: Option<usize>) {
        proof {
            assert(self.sizes_fit() == true);
            assert(self.spec_min_size() == None::<usize>);
        }
        None
    }

    fn size(&self) -> (r: Option<usize>) {
        proof {
            assert(self.sizes_fit() == true);
            assert(self.spec_min_size() == None::<usize>);
            assert(self.spec_size() == None::<usize>);
        }
        None
    }

    fn member_offset(&self, member_index: usize) -> (r: Option<usize>) {
        proof {
            assert(self.offset_fits(member_index) == true);
            assert(self.spec_member_offset(member_index) == None::<usize>);
        }
        None
    }

    fn access_ty(&self) -> (r: Option<AccessType>) {
        proof {
            assert(self.spec_access_ty() == None::<AccessType>);
        }
        None
    }
}

impl SpirvType for ArrayType {
    open spec fn spec_min_size(&self) -> Option<usize> {
        array_min_size(*self)
    }

    open spec fn spec_size(&self) -> Option<usize> {
        array_size(*self)
    }

    open spec fn spec_member_offset(&self, member_index: usize) -> Option<usize> {
        array_member_offset(*self, member_index)
    }

    open spec fn spec_access_ty(&self) -> Option<AccessType> {
        ty_access(*self.element_ty)
    }

    open spec fn sizes_fit(&self) -> bool {
        array_fits(*self)
    }

    open spec fn offset_fits(&self, member_index: usize) -> bool {
        array_offset_fits(*self, member_index)
    }

    fn min_size(&self) -> (r: Option<usize>) {
        proof {
            assert(self.sizes_fit() == array_fits(*self));
            assert(self.spec_min_size() == array_min_size(*self));
        }
        match self.stride {
            Some(stride) => {
                let count = match self.element_count {
                    Some(n) => n,
                    None => 0,
                };
                let count = if count >= 1 {
                    count
                } else {
                    1
                };
                Some(stride * count as usize)
            },
            None => None,
        }
    }

    fn size(&self) -> (r: Option<usize>) {
        proof {
            assert(self.sizes_fit() == array_fits(*self));
            assert(self.spec_min_size() == array_min_size(*self));
            assert(self.spec_size() == array_size(*self));
        }
        match self.stride {
            Some(stride) => {
                let count = match self.element_count {
                    Some(n) => n,
                    None => 0,
                };
                assert(stride * count <= stride * count_at_least_one(self.element_count)) by (
                nonlinear_arith)
                    requires
                        count <= count_at_least_one(self.element_count),
                ;
                Some(stride * count as usize)
            },
            None => None,
        }
    }

    fn member_offset(&self, member_index: usize) -> (r: Option<usize>) {
        proof {
            assert(self.offset_fits(member_index) == array_offset_fits(*self, member_index));
            assert(self.spec_member_offset(member_index) == array_member_offset(*self, member_index));
        }
        match self.stride {
            Some(stride) => Some(stride * member_index),
            None => None,
        }
    }

    fn access_ty(&self) -> (r: Option<AccessType>) {
        proof {
            assert(self.spec_access_ty() == ty_access(*self.element_ty));
        }
        type_access(&self.element_ty)
    }
}

impl SpirvType for StructType {
    open spec fn spec_min_size(&self) -> Option<usize> {
        ty_min_size(Type::Struct(*self))
    }

    open spec fn spec_size(&self) -> Option<usize> {
        ty_size(Type::Struct(*self))
    }

    open spec fn spec_member_offset(&self, member_index: usize) -> Option<usize> {
        struct_member_offset(*self, member_index)
    }

    open spec fn spec_access_ty(&self) -> Option<AccessType> {
        fold_access(self.members@)
    }

    open spec fn sizes_fit(&self) -> bool {
        ty_sizes_fit(Type::Struct(*self))
    }

    open spec fn offset_fits(&self, member_index: usize) -> bool {
        true
    }

    fn min_size(&self) -> (r: Option<usize>) {
        proof {
            assert(self.sizes_fit() == ty_sizes_fit(Type::Struct(*self)));
            assert(self.spec_min_size() == ty_min_size(Type::Struct(*self)));
        }
        let n = self.members.len();
        if n == 0 {
            return None;
        }
        let last = &self.members[n - 1];
        assert(self.members@[n - 1] == *last);
        match last.offset {
            Some(o) => match type_min_size(&last.ty) {
                Some(z) => Some(o + z),
                None => None,
            },
            None => None,
        }
    }

    fn size(&self) -> (r: Option<usize>) {
        proof {
            assert(self.sizes_fit() == ty_sizes_fit(Type::Struct(*self)));
            assert(self.spec_min_size() == ty_min_size(Type::Struct(*self)));
            assert(self.spec_size() == ty_size(Type::Struct(*self)));
        }
        let n = self.members.len();
        if n == 0 {
            return None;
        }
        let last = &self.members[n - 1];
        assert(self.members@[n - 1] == *last);
        match last.offset {
            Some(o) => match type_size(&last.ty) {
                Some(z) => Some(o + z),
                None => None,
            },
            None => None,
        }
    }

    fn member_offset(&self, member_index: usize) -> (r: Option<usize>) {
        proof {
            assert(self.offset_fits(member_index) == true);
            assert(self.spec_member_offset(member_index) == struct_member_offset(*self, member_index));
        }
        if member_index < self.members.len() {
            self.members[member_index].offset
        } else {
            None
        }
    }

    fn access_ty(&self) -> (r: Option<AccessType>) {
        proof {
            assert(self.spec_access_ty() == fold_access(self.members@));
        }
        members_access(&self.members)
    }
}

impl SpirvType for PointerType {
    open spec fn spec_min_size(&self) -> Option<usize> {
        address_size()
    }

    open spec fn spec_size(&self) -> Option<usize> {
        address_size()
    }

    open spec fn spec_member_offset(&self, member_index: usize) -> Option<usize> {
        None
    }

    open spec fn spec_access_ty(&self) -> Option<AccessType> {
        ty_access(*self.pointee_ty)
    }

    open spec fn sizes_fit(&self) -> bool {
        true
    }

    open spec fn offset_fits(&self, member_index: usize) -> bool {
        true
    }

    fn min_size(&self) -> (r: Option<usize>) {
        proof {
            assert(self.sizes_fit() == true);
            assert(self.spec_min_size() == address_size());
        }
        Some(core::mem::size_of::<u64>())
    }

    fn size(&self) -> (r: Option<usize>) {
        proof {
            assert(self.sizes_fit() == true);
            assert(self.spec_min_size() == address_size());
            assert(self.spec_size() == address_size());
        }
        self.min_size()
    }

    fn member_offset(&self, member_index: usize) -> (r: Option<usize>) {
        proof {
            assert(self.offset_fits(member_index) == true);
            assert(self.spec_member_offset(member_index) == None::<usize>);
        }
        None
    }

    fn access_ty(&self) -> (r: Option<AccessType>) {
        proof {
            assert(self.spec_access_ty() == ty_access(*self.pointee_ty));
        }
        type_access(&self.pointee_ty)
    }
}

impl SpirvType for DeviceAddressType {
    open spec fn spec_min_size(&self) -> Option<usize> {
        address_size()
    }

    open spec fn spec_size(&self) -> Option<usize> {
        address_size()
    }

    open spec fn spec_member_offset(&self, member_index: usize) -> Option<usize> {
        None
    }

    open spec fn spec_access_ty(&self) -> Option<AccessType> {
        None
    }

    open spec fn sizes_fit(&self) -> bool {
        true
    }

    open spec fn offset_fits(&self, member_index: usize) -> bool {
        true
    }

    fn min_size(&self) -> (r: Option<usize>) {
        proof {
            assert(self.sizes_fit() == true);
            assert(self.spec_min_size() == address_size());
        }
        Some(core::mem::size_of::<u64>())
    }

    fn size(&self) -> (r: Option<usize>) {
        proof {
            assert(self.sizes_fit() == true);
            assert(self.spec_min_size() == address_size());
            assert(self.spec_size() == address_size());
        }
        self.min_size()
    }

    fn member_offset(&self, member_index: usize) -> (r: Option<usize>) {
        proof {
            assert(self.offset_fits(member_index) == true);
            assert(self.spec_member_offset(member_index) == None::<usize>);
        }
        None
    }

    fn access_ty(&self) -> (r: Option<AccessType>) {
        proof {
            assert(self.spec_access_ty() == None::<AccessType>);
        }
        None
    }
}

impl SpirvType for Type {
    open spec fn spec_min_size(&self) -> Option<usize> {
        ty_min_size(*self)
    }

    open spec fn spec_size(&self) -> Option<usize> {
        ty_size(*self)
    }

    open spec fn spec_member_offset(&self, member_index: usize) -> Option<usize> {
        ty_member_offset(*self, member_index)
    }

    open spec fn spec_access_ty(&self) -> Option<AccessType> {
        ty_access(*self)
    }

    open spec fn sizes_fit(&self) -> bool {
        ty_sizes_fit(*self)
    }

    open spec fn offset_fits(&self, member_index: usize) -> bool {
        ty_offset_fits(*self, member_index)
    }

    fn min_size(&self) -> (r: Option<usize>) {
        proof {
            assert(self.sizes_fit() == ty_sizes_fit(*self));
            assert(self.spec_min_size() == ty_min_size(*self));
        }
        type_min_size(self)
    }

    fn size(&self) -> (r: Option<usize>) {
        proof {
            assert(self.sizes_fit() == ty_sizes_fit(*self));
            assert(self.spec_min_size() == ty_min_size(*self));
            assert(self.spec_size() == ty_size(*self));
        }
        type_size(self)
    }

    fn member_offset(&self, member_index: usize) -> (r: Option<usize>) {
        proof {
            assert(self.offset_fits(member_index) == ty_offset_fits(*self, member_index));
            assert(self.spec_member_offset(member_index) == ty_member_offset(*self, member_index));
        }
        match self {
            Type::Array(x) => x.member_offset(member_index),
            Type::Struct(x) => x.member_offset(member_index),
            _ => None,
        }
    }

    fn access_ty(&self) -> (r: Option<AccessType>) {
        proof {
            assert(self.spec_access_ty() == ty_access(*self));
        }
        type_access(self)
    }
}

} // verus!
