//! Values exchanged over the C interface: status codes, enumerants and the
//! fixed-size name buffer of an entry point profile.
use vstd::prelude::*;

verus! {

/// Status of a call through the C interface.
#[derive(Debug, Clone, Copy, PartialEq, Eq, Structural)]
pub enum Error {
    Success,
    ArgumentNull,
    ArgumentOutOfRange,
    InvalidArgument,
    CorruptedSpirv,
    UnsupportedSpirv,
    InvalidSpecialization,
}

impl Error {
    /// The status code: zero for success, negative for a failure.
    pub open spec fn spec_code(self) -> i32 {
        match self {
            Error::Success => 0,
            Error::ArgumentNull => -1i32,
            Error::ArgumentOutOfRange => -2i32,
            Error::InvalidArgument => -3i32,
            Error::CorruptedSpirv => -4i32,
            Error::UnsupportedSpirv => -5i32,
            Error::InvalidSpecialization => -6i32,
        }
    }

    /// The status code: zero for success, negative for a failure.
    pub fn code(&self) -> (r: i32)
        ensures
            r == self.spec_code(),
    {
        match self {
            Error::Success => 0,
            Error::ArgumentNull => -1,
            Error::ArgumentOutOfRange => -2,
            Error::InvalidArgument => -3,
            Error::CorruptedSpirv => -4,
            Error::UnsupportedSpirv => -5,
            Error::InvalidSpecialization => -6,
        }
    }
}

/// How a storage buffer may be accessed.
#[derive(Debug, Clone, Copy, PartialEq, Eq, Structural)]
pub enum AccessType {
    Unspecified,
    ReadOnly,
    WriteOnly,
    ReadWrite,
}

impl AccessType {
    /// The enumerant value.
    pub open spec fn spec_code(self) -> u32 {
        match self {
            AccessType::Unspecified => 0,
            AccessType::ReadOnly => 1,
            AccessType::WriteOnly => 2,
            AccessType::ReadWrite => 3,
        }
    }

    /// The enumerant value.
    pub fn code(&self) -> (r: u32)
        ensures
            r == self.spec_code(),
    {
        match self {
            AccessType::Unspecified => 0,
            AccessType::ReadOnly => 1,
            AccessType::WriteOnly => 2,
            AccessType::ReadWrite => 3,
        }
    }
}

/// Scalar type of a value, as the C interface names it.
#[derive(Debug, Clone, Copy, PartialEq, Eq, Structural)]
pub enum PrimitiveType {
    I8,
    I16,
    I32,
    I64,
    U8,
    U16,
    U32,
    U64,
    F16,
    F32,
    F64,
}

impl PrimitiveType {
    /// The enumerant value, from one for `I8` to eleven for `F64`.
    pub open spec fn spec_code(self) -> u32 {
        match self {
            PrimitiveType::I8 => 1,
            PrimitiveType::I16 => 2,
            PrimitiveType::I32 => 3,
            PrimitiveType::I64 => 4,
            PrimitiveType::U8 => 5,
            PrimitiveType::U16 => 6,
            PrimitiveType::U32 => 7,
            PrimitiveType::U64 => 8,
            PrimitiveType::F16 => 9,
            PrimitiveType::F32 => 10,
            PrimitiveType::F64 => 11,
        }
    }

    /// The enumerant value, from one for `I8` to eleven for `F64`.
    pub fn code(&self) -> (r: u32)
        ensures
            r == self.spec_code(),
    {
        match self {
            PrimitiveType::I8 => 1,
            PrimitiveType::I16 => 2,
            PrimitiveType::I32 => 3,
            PrimitiveType::I64 => 4,
            PrimitiveType::U8 => 5,
            PrimitiveType::U16 => 6,
            PrimitiveType::U32 => 7,
            PrimitiveType::U64 => 8,
            PrimitiveType::F16 => 9,
            PrimitiveType::F32 => 10,
            PrimitiveType::F64 => 11,
        }
    }
}

/// An interface variable as the C interface describes it; types are given
/// by their index in the profile's type table.
#[derive(Debug, Clone, Copy, PartialEq, Eq, Structural)]
pub enum Variable {
    Input { location: u32, component: u32, type_index: usize },
    Output { location: u32, component: u32, type_index: usize },
    UniformBuffer { set: u32, binding: u32, type_index: usize, count: u32 },
    StorageBuffer { set: u32, binding: u32, access: AccessType, type_index: usize, count: u32 },
    PushConstant { type_index: usize },
    SpecConstant { spec_id: u32, type_index: usize },
}

/// How many bytes of a name of `len` bytes fit in the name buffer, which
/// keeps its last byte for the terminating NUL.
pub open spec fn name_fit(len: nat) -> nat {
    if len < 255 {
        len
    } else {
        255
    }
}

/// Copy a name into the fixed-size name buffer: as many of its bytes as fit
/// before the last byte, then a terminating NUL. The rest of the buffer is
/// left as it was.
pub fn str2bufstr(dst: &mut [i8; 256], src: &[u8])
    ensures
        forall|i: int| 0 <= i < name_fit(src@.len()) ==> final(dst)@[i] == src@[i] as i8,
        final(dst)@[name_fit(src@.len()) as int] == 0,
        forall|i: int| name_fit(src@.len()) < i < 256 ==> final(dst)@[i] == old(dst)@[i],
{
    let n: usize = if src.len() < 255 {
        src.len()
    } else {
        255
    };
    let mut i: usize = 0;
    while i < n
        invariant
            n == name_fit(src@.len()),
            i <= n,
            n <= 255,
            dst@.len() == 256,
            forall|j: int| 0 <= j < i ==> dst@[j] == src@[j] as i8,
            forall|j: int| i <= j < 256 ==> dst@[j] == old(dst)@[j],
        decreases n - i,
    {
        dst[i] = src[i] as i8;
        i = i + 1;
    }
    dst[n] = 0;
}

} // verus!
