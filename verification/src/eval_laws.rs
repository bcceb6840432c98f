//! What the integer operations of the constant evaluator compute, stated
//! over their operands and results.
use vstd::prelude::*;

use crate::constant::ValueSpec;
use crate::error::Error;
use crate::evaluator::{
    abs, eval_spec, OP_BITCAST, OP_I_ADD, OP_I_MUL, OP_I_SUB, OP_SHIFT_LEFT_LOGICAL,
    OP_SHIFT_RIGHT_ARITHMETIC, OP_SHIFT_RIGHT_LOGICAL, OP_S_DIV, OP_S_MOD, OP_S_NEGATE, OP_S_REM,
};
use vstd::arithmetic::div_mod::lemma_fundamental_div_mod;
use vstd::arithmetic::power2::pow2;
use vstd::bits::{lemma_u32_shl_is_mul, lemma_u32_shr_is_div};
use crate::ty::{ScalarType, Type};

verus! {

/// The 32-bit signed integer type.
pub open spec fn s32_ty() -> Type {
    Type::Scalar(ScalarType::Integer { bits: 32, is_signed: true })
}

/// The 32-bit unsigned integer type.
pub open spec fn u32_ty() -> Type {
    Type::Scalar(ScalarType::Integer { bits: 32, is_signed: false })
}

/// The 32-bit float type.
pub open spec fn f32_ty() -> Type {
    Type::Scalar(ScalarType::Float { bits: 32 })
}

/// `r` is `v` wrapped into 32 bits: they differ by a multiple of `2^32`
/// (at most one, as both come from 32-bit values).
pub open spec fn wraps_to(r: int, v: int) -> bool {
    r == v || r == v - 0x1_0000_0000 || r == v + 0x1_0000_0000
}

/// Signed addition wraps the sum into 32 bits, does not depend on the order
/// of its operands, and subtracting the second operand again gives the
/// first back.
pub proof fn lemma_i_add(x: i32, y: i32)
    ensures
        eval_spec(OP_I_ADD, s32_ty(), seq![ValueSpec::S32(x), ValueSpec::S32(y)]) matches Ok(
            ValueSpec::S32(r),
        ) && wraps_to(r as int, x + y) && eval_spec(
            OP_I_SUB,
            s32_ty(),
            seq![ValueSpec::S32(r), ValueSpec::S32(y)],
        ) == Ok::<ValueSpec, Error>(ValueSpec::S32(x)),
        eval_spec(OP_I_ADD, s32_ty(), seq![ValueSpec::S32(x), ValueSpec::S32(y)]) == eval_spec(
            OP_I_ADD,
            s32_ty(),
            seq![ValueSpec::S32(y), ValueSpec::S32(x)],
        ),
{
    let r = (x + y) as i32;
    assert(wraps_to(r as int, x + y)) by {
        assert(((x + y) as i32) as int == x + y || ((x + y) as i32) as int == x + y - 0x1_0000_0000
            || ((x + y) as i32) as int == x + y + 0x1_0000_0000) by (bit_vector);
    }
    assert((r - y) as i32 == x) by (bit_vector)
        requires
            r == (x + y) as i32,
    ;
    assert((y + x) as i32 == r);
}

/// Signed subtraction wraps the difference into 32 bits.
pub proof fn lemma_i_sub(x: i32, y: i32)
    ensures
        eval_spec(OP_I_SUB, s32_ty(), seq![ValueSpec::S32(x), ValueSpec::S32(y)]) matches Ok(
            ValueSpec::S32(r),
        ) && wraps_to(r as int, x - y),
{
    assert(((x - y) as i32) as int == x - y || ((x - y) as i32) as int == x - y - 0x1_0000_0000
        || ((x - y) as i32) as int == x - y + 0x1_0000_0000) by (bit_vector);
}

/// Signed negation gives the opposite number, and negating twice gives the
/// operand back; the least `i32`, whose opposite does not fit, is left out.
pub proof fn lemma_s_negate(x: i32)
    requires
        x != i32::MIN,
    ensures
        eval_spec(OP_S_NEGATE, s32_ty(), seq![ValueSpec::S32(x)]) matches Ok(ValueSpec::S32(r))
            && r == -x && eval_spec(OP_S_NEGATE, s32_ty(), seq![ValueSpec::S32(r)]) == Ok::<
            ValueSpec,
            Error,
        >(ValueSpec::S32(x)),
{
}

/// Bitcasting keeps the bits: a float's bits read as an unsigned integer are
/// the same bits, a signed integer read as unsigned and back is unchanged,
/// and bits read as a float and back are unchanged.
pub proof fn lemma_bitcast(x: i32, b: u32)
    ensures
        eval_spec(OP_BITCAST, u32_ty(), seq![ValueSpec::S32(x)]) matches Ok(ValueSpec::U32(u))
            && eval_spec(OP_BITCAST, s32_ty(), seq![ValueSpec::U32(u)]) == Ok::<ValueSpec, Error>(
            ValueSpec::S32(x),
        ) && (x >= 0 ==> u == x) && (x < 0 ==> u == x + 0x1_0000_0000),
        eval_spec(OP_BITCAST, f32_ty(), seq![ValueSpec::U32(b)]) == Ok::<ValueSpec, Error>(
            ValueSpec::F32(b),
        ),
        eval_spec(OP_BITCAST, u32_ty(), seq![ValueSpec::F32(b)]) == Ok::<ValueSpec, Error>(
            ValueSpec::U32(b),
        ),
{
    assert(((x as u32) as i32) == x) by (bit_vector);
    assert(x >= 0 ==> (x as u32) as int == x as int) by (bit_vector);
    assert(x < 0 ==> (x as u32) as int == x as int + 0x1_0000_0000) by (bit_vector);
}

/// Signed multiplication gives the product when it fits in 32 bits, and
/// does not depend on the order of its operands.
pub proof fn lemma_i_mul(x: i32, y: i32)
    ensures
        eval_spec(OP_I_MUL, s32_ty(), seq![ValueSpec::S32(x), ValueSpec::S32(y)]) matches Ok(
            ValueSpec::S32(r),
        ) && (i32::MIN <= x * y <= i32::MAX ==> r == x * y),
        eval_spec(OP_I_MUL, s32_ty(), seq![ValueSpec::S32(x), ValueSpec::S32(y)]) == eval_spec(
            OP_I_MUL,
            s32_ty(),
            seq![ValueSpec::S32(y), ValueSpec::S32(x)],
        ),
{
    assert(x * y == y * x) by (nonlinear_arith);
}

/// Signed division rounds toward zero and signed remainder is what it
/// leaves: the quotient times the divisor plus the remainder is the
/// dividend, the remainder is smaller than the divisor in magnitude, and it
/// is zero or has the dividend's sign. Division by zero, and the least
/// `i32` divided by -1, whose quotient does not fit, are left out.
pub proof fn lemma_s_div_rem(x: i32, y: i32)
    requires
        y != 0,
        !(x == i32::MIN && y == -1),
    ensures
        eval_spec(OP_S_DIV, s32_ty(), seq![ValueSpec::S32(x), ValueSpec::S32(y)]) matches Ok(
            ValueSpec::S32(q),
        ) && eval_spec(OP_S_REM, s32_ty(), seq![ValueSpec::S32(x), ValueSpec::S32(y)]) matches Ok(
            ValueSpec::S32(m),
        ) && {
            &&& q * y + m == x
            &&& abs(m as int) < abs(y as int)
            &&& m == 0 || (m < 0) == (x < 0)
        },
{
    let a = abs(x as int) as int;
    let b = abs(y as int) as int;
    lemma_fundamental_div_mod(a, b);
    let q0 = a / b;
    let r0 = a % b;
    assert(0 <= r0 < b);
    assert(0 <= q0 <= a) by (nonlinear_arith)
        requires
            a == b * q0 + r0,
            0 <= r0 < b,
            b >= 1,
            a >= 0,
    ;
    assert(q0 == a ==> b == 1 || a == 0) by (nonlinear_arith)
        requires
            a == b * q0 + r0,
            0 <= r0,
            b >= 1,
            a >= 0,
    ;
    let q: int = if (x < 0) != (y < 0) {
        -q0
    } else {
        q0
    };
    let m: int = if x < 0 {
        -r0
    } else {
        r0
    };
    assert(q * y + m == x) by (nonlinear_arith)
        requires
            a == b * q0 + r0,
            a == abs(x as int),
            b == abs(y as int),
            q == (if (x < 0) != (y < 0) {
                -q0
            } else {
                q0
            }),
            m == (if x < 0 {
                -r0
            } else {
                r0
            }),
    ;
    assert(i32::MIN <= q <= i32::MAX);
    assert(i32::MIN <= m <= i32::MAX);
}

/// The signed modulus is the remainder made non-negative: it lies in
/// `0 .. |divisor|` and is the signed remainder, or that plus the divisor's
/// magnitude.
pub proof fn lemma_s_mod(x: i32, y: i32)
    requires
        y != 0,
    ensures
        eval_spec(OP_S_MOD, s32_ty(), seq![ValueSpec::S32(x), ValueSpec::S32(y)]) matches Ok(
            ValueSpec::S32(k),
        ) && eval_spec(OP_S_REM, s32_ty(), seq![ValueSpec::S32(x), ValueSpec::S32(y)]) matches Ok(
            ValueSpec::S32(m),
        ) && {
            &&& 0 <= k < abs(y as int)
            &&& k == m || k == m + abs(y as int)
        },
{
    let a = abs(x as int) as int;
    let b = abs(y as int) as int;
    lemma_fundamental_div_mod(a, b);
    assert(0 <= a % b < b);
}

/// Logical shifts of unsigned integers by less than 32: right divides by
/// `2^s` rounding down, left multiplies by `2^s` when the product fits.
pub proof fn lemma_logical_shifts(x: u32, s: u32)
    requires
        s < 32,
    ensures
        eval_spec(OP_SHIFT_RIGHT_LOGICAL, u32_ty(), seq![ValueSpec::U32(x), ValueSpec::U32(s)])
            == Ok::<ValueSpec, Error>(ValueSpec::U32((x as nat / pow2(s as nat)) as u32)),
        x * pow2(s as nat) <= u32::MAX ==> eval_spec(
            OP_SHIFT_LEFT_LOGICAL,
            u32_ty(),
            seq![ValueSpec::U32(x), ValueSpec::U32(s)],
        ) == Ok::<ValueSpec, Error>(ValueSpec::U32((x * pow2(s as nat)) as u32)),
{
    lemma_u32_shr_is_div(x, s);
    if x * pow2(s as nat) <= u32::MAX {
        lemma_u32_shl_is_mul(x, s);
    }
}

/// The arithmetic right shift of a signed integer by less than 32 divides
/// by `2^s` rounding toward negative infinity: a non-negative value is
/// divided and rounded down, and a negative value `x` shifts to `-1` minus
/// the shift of `-1 - x`.
pub proof fn lemma_arithmetic_shift(x: i32, s: u32)
    requires
        s < 32,
    ensures
        eval_spec(OP_SHIFT_RIGHT_ARITHMETIC, s32_ty(), seq![ValueSpec::S32(x), ValueSpec::U32(s)])
            matches Ok(ValueSpec::S32(r)) && {
            &&& x >= 0 ==> r == x as nat / pow2(s as nat)
            &&& x < 0 ==> eval_spec(
                OP_SHIFT_RIGHT_ARITHMETIC,
                s32_ty(),
                seq![ValueSpec::S32((-1 - x) as i32), ValueSpec::U32(s)],
            ) == Ok::<ValueSpec, Error>(ValueSpec::S32((-1 - r) as i32))
        },
{
    let r = x >> s;
    if x >= 0 {
        let u = x as u32;
        assert(x >= 0 && s < 32 ==> (x >> s) as u32 == (x as u32) >> s && (x >> s) >= 0) by (bit_vector);
        lemma_u32_shr_is_div(u, s);
    } else {
        let nx = (-1 - x) as i32;
        assert(x < 0 && s < 32 ==> ((-1 - x) as i32) >> s == (-1 - (x >> s)) as i32) by (bit_vector);
    }
}

} // verus!
