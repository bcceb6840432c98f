//! SPIR-V enumerants that the library carries through unchanged.
use vstd::prelude::*;

verus! {

/// `spirv::StorageClass`: where a variable lives.
#[verifier::external_type_specification]
#[verifier::external_body]
pub struct ExStorageClass(spirv::StorageClass);

/// The derived `Clone` of `spirv::StorageClass`, a `Copy` enum: the clone is
/// the value itself.
pub assume_specification[ <spirv::StorageClass as core::clone::Clone>::clone ](
    c: &spirv::StorageClass,
) -> (r: spirv::StorageClass)
    ensures
        r == *c,
;

/// The derived `==` of `spirv::StorageClass`, a field-less enum: true
/// exactly for the same enumerant.
#[verifier::external_body]
pub(crate) fn storage_class_eq(a: spirv::StorageClass, b: spirv::StorageClass) -> (r: bool)
    ensures
        r == (a == b),
{
    a == b
}

/// The text the derived `Debug` of `spirv::StorageClass` gives for an
/// enumerant: its name.
pub uninterp spec fn storage_class_name(c: spirv::StorageClass) -> Seq<char>;

/// `format!("{:?}", c)` on a `spirv::StorageClass`: the derived `Debug`,
/// which writes the enumerant's name and depends on nothing else.
#[verifier::external_body]
pub(crate) fn storage_class_text(c: spirv::StorageClass) -> (r: String)
    ensures
        r@ == storage_class_name(c),
{
    format!("{:?}", c)
}

} // verus!
