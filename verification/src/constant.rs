//! Constant and specialization constant representations.
use vstd::prelude::*;

use vstd::slice::slice_to_vec;

use crate::error::Error;
use crate::parse::words::{le_bytes, le_bytes_of, le_word};
use crate::ty::copy::ty_same;
use crate::ty::{ScalarType, Type};
use crate::var::SpecId;

verus! {

/// Typed constant value. Floating-point values are held as their IEEE 754
/// bit patterns.
#[non_exhaustive]
#[derive(PartialEq, Eq, Hash, Debug)]
pub enum ConstantValue {
    Typeless(Vec<u8>),
    Bool(bool),
    S8(i8),
    S16(i16),
    S32(i32),
    S64(i64),
    U8(u8),
    U16(u16),
    U32(u32),
    U64(u64),
    F16(u16),
    F32(u32),
    F64(u64),
}

/// What a constant value holds, with the bytes of an untyped value as a
/// sequence.
pub enum ValueSpec {
    Typeless(Seq<u8>),
    Bool(bool),
    S8(i8),
    S16(i16),
    S32(i32),
    S64(i64),
    U8(u8),
    U16(u16),
    U32(u32),
    U64(u64),
    F16(u16),
    F32(u32),
    F64(u64),
}

impl View for ConstantValue {
    type V = ValueSpec;

    open spec fn view(&self) -> ValueSpec {
        match self {
            ConstantValue::Typeless(b) => ValueSpec::Typeless(b@),
            ConstantValue::Bool(x) => ValueSpec::Bool(*x),
            ConstantValue::S8(x) => ValueSpec::S8(*x),
            ConstantValue::S16(x) => ValueSpec::S16(*x),
            ConstantValue::S32(x) => ValueSpec::S32(*x),
            ConstantValue::S64(x) => ValueSpec::S64(*x),
            ConstantValue::U8(x) => ValueSpec::U8(*x),
            ConstantValue::U16(x) => ValueSpec::U16(*x),
            ConstantValue::U32(x) => ValueSpec::U32(*x),
            ConstantValue::U64(x) => ValueSpec::U64(*x),
            ConstantValue::F16(x) => ValueSpec::F16(*x),
            ConstantValue::F32(x) => ValueSpec::F32(*x),
            ConstantValue::F64(x) => ValueSpec::F64(*x),
        }
    }
}

impl Clone for ConstantValue {
    fn clone(&self) -> (r: ConstantValue)
        ensures
            r@ == self@,
    {
        match self {
            ConstantValue::Typeless(b) => ConstantValue::Typeless(slice_to_vec(b.as_slice())),
            ConstantValue::Bool(x) => ConstantValue::Bool(*x),
            ConstantValue::S8(x) => ConstantValue::S8(*x),
            ConstantValue::S16(x) => ConstantValue::S16(*x),
            ConstantValue::S32(x) => ConstantValue::S32(*x),
            ConstantValue::S64(x) => ConstantValue::S64(*x),
            ConstantValue::U8(x) => ConstantValue::U8(*x),
            ConstantValue::U16(x) => ConstantValue::U16(*x),
            ConstantValue::U32(x) => ConstantValue::U32(*x),
            ConstantValue::U64(x) => ConstantValue::U64(*x),
            ConstantValue::F16(x) => ConstantValue::F16(*x),
            ConstantValue::F32(x) => ConstantValue::F32(*x),
            ConstantValue::F64(x) => ConstantValue::F64(*x),
        }
    }
}

impl From<bool> for ConstantValue {
    fn from(x: bool) -> (r: ConstantValue)
        ensures
            r == ConstantValue::Bool(x),
    {
        ConstantValue::Bool(x)
    }
}

impl vstd::std_specs::convert::FromSpecImpl<bool> for ConstantValue {
    open spec fn obeys_from_spec() -> bool {
        true
    }

    open spec fn from_spec(x: bool) -> ConstantValue {
        ConstantValue::Bool(x)
    }
}

impl From<u32> for ConstantValue {
    fn from(x: u32) -> (r: ConstantValue)
        ensures
            r == ConstantValue::U32(x),
    {
        ConstantValue::U32(x)
    }
}

impl vstd::std_specs::convert::FromSpecImpl<u32> for ConstantValue {
    open spec fn obeys_from_spec() -> bool {
        true
    }

    open spec fn from_spec(x: u32) -> ConstantValue {
        ConstantValue::U32(x)
    }
}

impl From<i32> for ConstantValue {
    fn from(x: i32) -> (r: ConstantValue)
        ensures
            r == ConstantValue::S32(x),
    {
        ConstantValue::S32(x)
    }
}

impl vstd::std_specs::convert::FromSpecImpl<i32> for ConstantValue {
    open spec fn obeys_from_spec() -> bool {
        true
    }

    open spec fn from_spec(x: i32) -> ConstantValue {
        ConstantValue::S32(x)
    }
}

/// The 16-bit value whose bytes, least significant first, are `b0` and `b1`.
pub open spec fn le_half(b0: u8, b1: u8) -> u16 {
    (b0 + b1 * 256) as u16
}

/// The 64-bit value whose bytes, least significant first, are `b[0..8]`.
pub open spec fn le_long(b: Seq<u8>) -> u64 {
    (le_word(b[0], b[1], b[2], b[3]) + le_word(b[4], b[5], b[6], b[7]) * 0x1_0000_0000) as u64
}

/// Some byte is not zero.
pub open spec fn any_nonzero(b: Seq<u8>) -> bool {
    exists|i: int| 0 <= i < b.len() && b[i] != 0
}

/// The value that the bytes of an untyped constant stand for as a scalar of
/// type `ty`: booleans from any non-zero byte; 8, 16 and 32-bit numbers from
/// the leading bytes of four; 64-bit numbers from eight bytes;
/// floating-point numbers as their bits.
pub open spec fn typed_value(ty: ScalarType, b: Seq<u8>) -> Option<ValueSpec> {
    match ty {
        ScalarType::Boolean => Some(ValueSpec::Bool(any_nonzero(b))),
        ScalarType::Integer { bits: 8, is_signed: true } if b.len() == 4 => Some(
            ValueSpec::S8(b[0] as i8),
        ),
        ScalarType::Integer { bits: 8, is_signed: false } if b.len() == 4 => Some(
            ValueSpec::U8(b[0]),
        ),
        ScalarType::Integer { bits: 16, is_signed: true } if b.len() == 4 => Some(
            ValueSpec::S16(le_half(b[0], b[1]) as i16),
        ),
        ScalarType::Integer { bits: 16, is_signed: false } if b.len() == 4 => Some(
            ValueSpec::U16(le_half(b[0], b[1])),
        ),
        ScalarType::Integer { bits: 32, is_signed: true } if b.len() == 4 => Some(
            ValueSpec::S32(le_word(b[0], b[1], b[2], b[3]) as i32),
        ),
        ScalarType::Integer { bits: 32, is_signed: false } if b.len() == 4 => Some(
            ValueSpec::U32(le_word(b[0], b[1], b[2], b[3])),
        ),
        ScalarType::Integer { bits: 64, is_signed: true } if b.len() == 8 => Some(
            ValueSpec::S64(le_long(b) as i64),
        ),
        ScalarType::Integer { bits: 64, is_signed: false } if b.len() == 8 => Some(
            ValueSpec::U64(le_long(b)),
        ),
        ScalarType::Float { bits: 16 } if b.len() == 4 => Some(
            ValueSpec::F16(le_half(b[0], b[1])),
        ),
        ScalarType::Float { bits: 32 } if b.len() == 4 => Some(
            ValueSpec::F32(le_word(b[0], b[1], b[2], b[3])),
        ),
        ScalarType::Float { bits: 64 } if b.len() == 8 => Some(ValueSpec::F64(le_long(b))),
        _ => None,
    }
}

/// The little-endian bytes of a value of `n` bytes.
pub open spec fn le_n(v: nat, n: nat) -> Seq<u8> {
    Seq::new(n, |i: int| ((v / pow256(i)) % 256) as u8)
}

/// `256` to the power of `i`.
pub open spec fn pow256(i: int) -> nat
    decreases i,
{
    if i <= 0 {
        1
    } else {
        256 * pow256(i - 1)
    }
}

/// The bytes of a typed value, least significant first.
pub open spec fn value_bytes(v: ValueSpec) -> Seq<u8> {
    match v {
        ValueSpec::Typeless(b) => b,
        ValueSpec::Bool(x) => seq![if x {
            1u8
        } else {
            0u8
        }],
        ValueSpec::S8(x) => seq![x as u8],
        ValueSpec::S16(x) => le_n((x as u16) as nat, 2),
        ValueSpec::S32(x) => le_n((x as u32) as nat, 4),
        ValueSpec::S64(x) => le_n((x as u64) as nat, 8),
        ValueSpec::U8(x) => seq![x],
        ValueSpec::U16(x) => le_n(x as nat, 2),
        ValueSpec::U32(x) => le_n(x as nat, 4),
        ValueSpec::U64(x) => le_n(x as nat, 8),
        ValueSpec::F16(x) => le_n(x as nat, 2),
        ValueSpec::F32(x) => le_n(x as nat, 4),
        ValueSpec::F64(x) => le_n(x as nat, 8),
    }
}

proof fn lemma_pow256_pos(i: int)
    ensures
        pow256(i) > 0,
    decreases i,
{
    if i > 0 {
        lemma_pow256_pos(i - 1);
    }
}

/// The little-endian bytes of the low `n` bytes of `v`.
fn push_le(out: &mut Vec<u8>, v: u64, n: usize)
    requires
        n <= 8,
    ensures
        final(out)@ == old(out)@ + le_n(v as nat, n as nat),
{
    let mut i: usize = 0;
    let mut x: u64 = v;
    assert(pow256(0) == 1);
    assert(out@ =~= old(out)@ + le_n(v as nat, 0));
    while i < n
        invariant
            i <= n <= 8,
            out@ == old(out)@ + le_n(v as nat, i as nat),
            x == v as nat / pow256(i as int),
        decreases n - i,
    {
        out.push((x % 256) as u8);
        proof {
            assert(pow256(i + 1) == 256 * pow256(i as int));
            lemma_pow256_pos(i as int);
            vstd::arithmetic::div_mod::lemma_div_denominator(v as int, pow256(i as int) as int, 256);
            assert(pow256(i as int) * 256 == pow256(i + 1)) by (nonlinear_arith)
                requires
                    pow256(i + 1) == 256 * pow256(i as int),
            ;
            assert(out@ =~= old(out)@ + le_n(v as nat, (i + 1) as nat));
        }
        x = x / 256;
        i = i + 1;
    }
}

impl ConstantValue {
    /// An untyped value of the little-endian bytes of the words.
    pub fn from_words(x: &[u32]) -> (r: ConstantValue)
        ensures
            r@ == ValueSpec::Typeless(le_bytes(x@)),
    {
        ConstantValue::Typeless(le_bytes_of(x))
    }

    /// An untyped value of the bytes.
    pub fn from_bytes(x: &[u8]) -> (r: ConstantValue)
        ensures
            r@ == ValueSpec::Typeless(x@),
    {
        ConstantValue::Typeless(slice_to_vec(x))
    }

    /// Reads an untyped value as a scalar of the type `ty`; see
    /// `typed_value`.
    pub fn to_typed(&self, ty: &Type) -> (r: Result<Self, Error>)
        ensures
            match self@ {
                ValueSpec::Typeless(b) => match *ty {
                    Type::Scalar(s) => match typed_value(s, b) {
                        Some(v) => r matches Ok(x) && x@ == v,
                        None => r == Err::<Self, Error>(Error::UnparsableConstant),
                    },
                    _ => r == Err::<Self, Error>(Error::UnparsableConstant),
                },
                _ => r == Err::<Self, Error>(Error::AlreadyTyped),
            },
    {
        let x = match self {
            ConstantValue::Typeless(x) => x,
            _ => return Err(Error::AlreadyTyped),
        };
        let scalar_ty = match ty.as_scalar() {
            Some(s) => *s,
            None => return Err(Error::UnparsableConstant),
        };
        let n = x.len();
        match scalar_ty {
            ScalarType::Boolean => {
                let mut any = false;
                let mut i: usize = 0;
                while i < n
                    invariant
                        i <= n == x@.len(),
                        any == exists|j: int| 0 <= j < i && x@[j] != 0,
                    decreases n - i,
                {
                    if x[i] != 0 {
                        any = true;
                    }
                    i = i + 1;
                }
                Ok(ConstantValue::Bool(any))
            },
            ScalarType::Integer { bits: 8, is_signed: true } if n == 4 => Ok(
                ConstantValue::S8(x[0] as i8),
            ),
            ScalarType::Integer { bits: 8, is_signed: false } if n == 4 => Ok(
                ConstantValue::U8(x[0]),
            ),
            ScalarType::Integer { bits: 16, is_signed: true } if n == 4 => Ok(
                ConstantValue::S16(half_of(x[0], x[1]) as i16),
            ),
            ScalarType::Integer { bits: 16, is_signed: false } if n == 4 => Ok(
                ConstantValue::U16(half_of(x[0], x[1])),
            ),
            ScalarType::Integer { bits: 32, is_signed: true } if n == 4 => Ok(
                ConstantValue::S32(word_of(x[0], x[1], x[2], x[3]) as i32),
            ),
            ScalarType::Integer { bits: 32, is_signed: false } if n == 4 => Ok(
                ConstantValue::U32(word_of(x[0], x[1], x[2], x[3])),
            ),
            ScalarType::Integer { bits: 64, is_signed: true } if n == 8 => Ok(
                ConstantValue::S64(long_of(x) as i64),
            ),
            ScalarType::Integer { bits: 64, is_signed: false } if n == 8 => Ok(
                ConstantValue::U64(long_of(x)),
            ),
            ScalarType::Float { bits: 16 } if n == 4 => Ok(
                ConstantValue::F16(half_of(x[0], x[1])),
            ),
            ScalarType::Float { bits: 32 } if n == 4 => Ok(
                ConstantValue::F32(word_of(x[0], x[1], x[2], x[3])),
            ),
            ScalarType::Float { bits: 64 } if n == 8 => Ok(ConstantValue::F64(long_of(x))),
            _ => Err(Error::UnparsableConstant),
        }
    }

    pub fn to_bool(&self) -> (r: Option<bool>)
        ensures
            match *self {
                ConstantValue::Bool(x) => r == Some(x),
                _ => r is None,
            },
    {
        match self {
            ConstantValue::Bool(x) => Some(*x),
            _ => None,
        }
    }

    pub fn to_s32(&self) -> (r: Option<i32>)
        ensures
            match *self {
                ConstantValue::S32(x) => r == Some(x),
                _ => r is None,
            },
    {
        match self {
            ConstantValue::S32(x) => Some(*x),
            _ => None,
        }
    }

    /// The value of a signed 32-bit constant. Only `S32` values give one.
    pub fn to_u32(&self) -> (r: Option<i32>)
        ensures
            match *self {
                ConstantValue::S32(x) => r == Some(x),
                _ => r is None,
            },
    {
        match self {
            ConstantValue::S32(x) => Some(*x),
            _ => None,
        }
    }

    /// The bytes of the value, least significant first; see `value_bytes`.
    pub fn to_typeless(&self) -> (r: Option<Vec<u8>>)
        ensures
            r matches Some(b) && b@ == value_bytes(self@),
    {
        let mut out: Vec<u8> = Vec::new();
        match self {
            ConstantValue::Typeless(x) => return Some(slice_to_vec(x.as_slice())),
            ConstantValue::Bool(x) => out.push(if *x {
                1u8
            } else {
                0u8
            }),
            ConstantValue::S8(x) => out.push(*x as u8),
            ConstantValue::S16(x) => push_le(&mut out, (*x as u16) as u64, 2),
            ConstantValue::S32(x) => push_le(&mut out, (*x as u32) as u64, 4),
            ConstantValue::S64(x) => push_le(&mut out, *x as u64, 8),
            ConstantValue::U8(x) => out.push(*x),
            ConstantValue::U16(x) => push_le(&mut out, *x as u64, 2),
            ConstantValue::U32(x) => push_le(&mut out, *x as u64, 4),
            ConstantValue::U64(x) => push_le(&mut out, *x, 8),
            ConstantValue::F16(x) => push_le(&mut out, *x as u64, 2),
            ConstantValue::F32(x) => push_le(&mut out, *x as u64, 4),
            ConstantValue::F64(x) => push_le(&mut out, *x, 8),
        }
        proof {
            assert(out@ =~= value_bytes(self@));
        }
        Some(out)
    }
}

fn half_of(b0: u8, b1: u8) -> (r: u16)
    ensures
        r == le_half(b0, b1),
{
    (b0 as u16) + (b1 as u16) * 256
}

fn word_of(b0: u8, b1: u8, b2: u8, b3: u8) -> (r: u32)
    ensures
        r == le_word(b0, b1, b2, b3),
{
    (b0 as u32) + (b1 as u32) * 256 + (b2 as u32) * 65536 + (b3 as u32) * 16777216
}

fn long_of(b: &Vec<u8>) -> (r: u64)
    requires
        b@.len() == 8,
    ensures
        r == le_long(b@),
{
    let lo = word_of(b[0], b[1], b[2], b[3]) as u64;
    let hi = word_of(b[4], b[5], b[6], b[7]) as u64;
    lo + hi * 0x1_0000_0000
}

/// Constant or specialization constant record.
#[derive(PartialEq, Eq, Hash, Debug)]
pub struct Constant {
    pub name: Option<String>,
    /// Type of constant.
    pub ty: Type,
    /// Defined value of constant, or default value of specialization
    /// constant.
    pub value: ConstantValue,
    /// Specialization constant ID, notice that this is NOT an instruction
    /// ID. It is used to identify specialization constants for graphics
    /// libraries.
    pub spec_id: Option<SpecId>,
}

impl Clone for Constant {
    fn clone(&self) -> (r: Constant)
        ensures
            r.name == self.name,
            ty_same(r.ty, self.ty),
            r.value@ == self.value@,
            r.spec_id == self.spec_id,
    {
        let name = match &self.name {
            Some(n) => Some(n.clone()),
            None => None,
        };
        Constant {
            name,
            ty: self.ty.clone(),
            value: self.value.clone(),
            spec_id: self.spec_id,
        }
    }
}

impl Constant {
    /// Create a constant record with name, type and value.
    pub fn new(name: Option<String>, ty: Type, value: ConstantValue) -> (r: Self)
        ensures
            r == (Constant { name, ty, value, spec_id: None }),
    {
        Self { name, ty, value, spec_id: None }
    }

    /// Create an intermediate constant record with type and value.
    /// Intermediate constants don't have names because they contribute to
    /// subexpressions in arithmetic.
    pub fn new_itm(ty: Type, value: ConstantValue) -> (r: Self)
        ensures
            r == (Constant { name: None, ty, value, spec_id: None }),
    {
        Self { name: None, ty, value, spec_id: None }
    }

    /// Create a specialization constant record with name, type, default
    /// value and a `SpecId`.
    pub fn new_spec(name: Option<String>, ty: Type, value: ConstantValue, spec_id: SpecId) -> (r:
        Self)
        ensures
            r == (Constant { name, ty, value, spec_id: Some(spec_id) }),
    {
        Self { name, ty, value, spec_id: Some(spec_id) }
    }
}

} // verus!
