//! How a variable can be accessed, and how access kinds combine.
use vstd::prelude::*;

verus! {

/// Access type of a variable.
#[derive(Debug, Clone, Copy, PartialEq, Eq, Hash, Structural)]
pub enum AccessType {
    /// The variable can be accessed by read.
    ReadOnly,
    /// The variable can be accessed by write.
    WriteOnly,
    /// The variable can be accessed by read or by write.
    ReadWrite,
}

impl AccessType {
    /// The numeric value of the access kind: bit 0 for read, bit 1 for write.
    pub open spec fn code(self) -> u32 {
        match self {
            AccessType::ReadOnly => 1,
            AccessType::WriteOnly => 2,
            AccessType::ReadWrite => 3,
        }
    }

    /// The numeric value of the access kind: 1 for `ReadOnly`, 2 for
    /// `WriteOnly` and 3 for `ReadWrite`.
    pub fn to_u32(self) -> (r: u32)
        ensures
            r == self.code(),
    {
        match self {
            AccessType::ReadOnly => 1,
            AccessType::WriteOnly => 2,
            AccessType::ReadWrite => 3,
        }
    }
}

/// The access kind that allows what either operand allows.
pub open spec fn access_or(a: AccessType, b: AccessType) -> AccessType {
    match (a, b) {
        (AccessType::ReadOnly, AccessType::ReadOnly) => AccessType::ReadOnly,
        (AccessType::WriteOnly, AccessType::WriteOnly) => AccessType::WriteOnly,
        _ => AccessType::ReadWrite,
    }
}

/// The access kind that allows what both operands allow, if they share any.
pub open spec fn access_and(a: AccessType, b: AccessType) -> Option<AccessType> {
    match (a, b) {
        (AccessType::ReadOnly, AccessType::ReadWrite)
        | (AccessType::ReadWrite, AccessType::ReadOnly)
        | (AccessType::ReadOnly, AccessType::ReadOnly) => Some(AccessType::ReadOnly),
        (AccessType::WriteOnly, AccessType::ReadWrite)
        | (AccessType::ReadWrite, AccessType::WriteOnly)
        | (AccessType::WriteOnly, AccessType::WriteOnly) => Some(AccessType::WriteOnly),
        (AccessType::ReadWrite, AccessType::ReadWrite) => Some(AccessType::ReadWrite),
        _ => None,
    }
}

impl core::ops::BitOr<AccessType> for AccessType {
    type Output = AccessType;

    fn bitor(self, rhs: AccessType) -> (r: AccessType) {
        match (self, rhs) {
            (AccessType::ReadOnly, AccessType::ReadOnly) => AccessType::ReadOnly,
            (AccessType::WriteOnly, AccessType::WriteOnly) => AccessType::WriteOnly,
            _ => AccessType::ReadWrite,
        }
    }
}

impl vstd::std_specs::ops::BitOrSpecImpl<AccessType> for AccessType {
    open spec fn obeys_bitor_spec() -> bool {
        true
    }

    open spec fn bitor_req(self, rhs: AccessType) -> bool {
        true
    }

    open spec fn bitor_spec(self, rhs: AccessType) -> AccessType {
        access_or(self, rhs)
    }
}

impl core::ops::BitAnd<AccessType> for AccessType {
    type Output = Option<AccessType>;

    fn bitand(self, rhs: AccessType) -> (r: Option<AccessType>) {
        match (self, rhs) {
            (AccessType::ReadOnly, AccessType::ReadWrite)
            | (AccessType::ReadWrite, AccessType::ReadOnly)
            | (AccessType::ReadOnly, AccessType::ReadOnly) => Some(AccessType::ReadOnly),
            (AccessType::WriteOnly, AccessType::ReadWrite)
            | (AccessType::ReadWrite, AccessType::WriteOnly)
            | (AccessType::WriteOnly, AccessType::WriteOnly) => Some(AccessType::WriteOnly),
            (AccessType::ReadWrite, AccessType::ReadWrite) => Some(AccessType::ReadWrite),
            (_, _) => None,
        }
    }
}

impl vstd::std_specs::ops::BitAndSpecImpl<AccessType> for AccessType {
    open spec fn obeys_bitand_spec() -> bool {
        true
    }

    open spec fn bitand_req(self, rhs: AccessType) -> bool {
        true
    }

    open spec fn bitand_spec(self, rhs: AccessType) -> Option<AccessType> {
        access_and(self, rhs)
    }
}

/// `|` on access kinds is the bitwise or of their numeric values, and `&` is
/// their bitwise and, with no access kind when that is zero.
pub proof fn lemma_access_bits(a: AccessType, b: AccessType)
    ensures
        access_or(a, b).code() == a.code() | b.code(),
        access_and(a, b) is None <==> a.code() & b.code() == 0,
        access_and(a, b) matches Some(c) ==> c.code() == a.code() & b.code(),
{
    assert(1u32 | 1u32 == 1u32 && 1u32 | 2u32 == 3u32 && 1u32 | 3u32 == 3u32 && 2u32 | 1u32 == 3u32
        && 2u32 | 2u32 == 2u32 && 2u32 | 3u32 == 3u32 && 3u32 | 1u32 == 3u32 && 3u32 | 2u32 == 3u32
        && 3u32 | 3u32 == 3u32) by (bit_vector);
    assert(1u32 & 1u32 == 1u32 && 1u32 & 2u32 == 0u32 && 1u32 & 3u32 == 1u32 && 2u32 & 1u32 == 0u32
        && 2u32 & 2u32 == 2u32 && 2u32 & 3u32 == 2u32 && 3u32 & 1u32 == 1u32 && 3u32 & 2u32 == 2u32
        && 3u32 & 3u32 == 3u32) by (bit_vector);
}

/// `|` on access kinds is commutative, associative and idempotent, and
/// `ReadWrite` absorbs every access kind.
pub proof fn lemma_access_or_laws(a: AccessType, b: AccessType, c: AccessType)
    ensures
        access_or(a, b) == access_or(b, a),
        access_or(access_or(a, b), c) == access_or(a, access_or(b, c)),
        access_or(a, a) == a,
        access_or(a, AccessType::ReadWrite) == AccessType::ReadWrite,
{
}

/// `&` on access kinds is commutative and idempotent, `ReadWrite` is its
/// identity, and it never allows more than either operand.
pub proof fn lemma_access_and_laws(a: AccessType, b: AccessType)
    ensures
        access_and(a, b) == access_and(b, a),
        access_and(a, a) == Some(a),
        access_and(a, AccessType::ReadWrite) == Some(a),
        access_and(a, b) matches Some(c) ==> access_or(c, a) == a && access_or(c, b) == b,
{
}

} // verus!
