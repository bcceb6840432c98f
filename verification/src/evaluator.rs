//! Evaluation of specialization constant expressions.
use vstd::prelude::*;

use std::collections::HashMap;

use crate::constant::{Constant, ConstantValue, ValueSpec};
use crate::error::Error;
use crate::ids::{increasing, sort_ids};
use crate::parse::instr::{opcode_of, Instr};
use crate::ty::{ScalarType, Type, TypeRegistry};
use vstd::std_specs::hash::spec_hash_map_iter;
use vstd::std_specs::iter::IteratorSpec;

verus! {

broadcast use vstd::std_specs::hash::group_hash_axioms;

pub const OP_CONVERT_F_TO_U: u32 = 109;

pub const OP_CONVERT_F_TO_S: u32 = 110;

pub const OP_CONVERT_S_TO_F: u32 = 111;

pub const OP_CONVERT_U_TO_F: u32 = 112;

pub const OP_U_CONVERT: u32 = 113;

pub const OP_S_CONVERT: u32 = 114;

pub const OP_F_CONVERT: u32 = 115;

pub const OP_BITCAST: u32 = 124;

pub const OP_S_NEGATE: u32 = 126;

pub const OP_F_NEGATE: u32 = 127;

pub const OP_I_ADD: u32 = 128;

pub const OP_F_ADD: u32 = 129;

pub const OP_I_SUB: u32 = 130;

pub const OP_F_SUB: u32 = 131;

pub const OP_I_MUL: u32 = 132;

pub const OP_F_MUL: u32 = 133;

pub const OP_U_DIV: u32 = 134;

pub const OP_S_DIV: u32 = 135;

pub const OP_F_DIV: u32 = 136;

pub const OP_U_MOD: u32 = 137;

pub const OP_S_REM: u32 = 138;

pub const OP_S_MOD: u32 = 139;

pub const OP_F_REM: u32 = 140;

pub const OP_F_MOD: u32 = 141;

pub const OP_SHIFT_RIGHT_LOGICAL: u32 = 194;

pub const OP_SHIFT_RIGHT_ARITHMETIC: u32 = 195;

pub const OP_SHIFT_LEFT_LOGICAL: u32 = 196;

pub const OP_BITWISE_OR: u32 = 197;

pub const OP_BITWISE_XOR: u32 = 198;

pub const OP_BITWISE_AND: u32 = 199;

pub const OP_NOT: u32 = 200;

/// The operations on floating-point values, whose results the caller
/// computes.
pub open spec fn is_float_op(op: u32) -> bool {
    op == OP_CONVERT_F_TO_U || op == OP_CONVERT_F_TO_S || op == OP_CONVERT_S_TO_F || op
        == OP_CONVERT_U_TO_F || op == OP_F_ADD || op == OP_F_SUB || op == OP_F_MUL || op
        == OP_F_DIV || op == OP_F_REM || op == OP_F_MOD
}

/// Whether the result type is a 32-bit integer, and if so its signedness.
pub open spec fn int32_result(ty: Type) -> Option<bool> {
    match ty {
        Type::Scalar(ScalarType::Integer { bits: 32, is_signed }) => Some(is_signed),
        _ => None,
    }
}

/// Whether the result type is a 32-bit float.
pub open spec fn f32_result(ty: Type) -> bool {
    ty matches Type::Scalar(ScalarType::Float { bits: 32 })
}

/// A 32-bit integer operand as a number.
pub open spec fn int_operand(v: ValueSpec) -> Option<int> {
    match v {
        ValueSpec::S32(x) => Some(x as int),
        ValueSpec::U32(x) => Some(x as int),
        _ => None,
    }
}

/// A 32-bit integer operand widened to 64 bits as unsigned division sees
/// it: a signed value is sign-extended, then read as unsigned.
pub open spec fn uint_operand(v: ValueSpec) -> Option<int> {
    match v {
        ValueSpec::S32(x) => Some((x as u64) as int),
        ValueSpec::U32(x) => Some(x as int),
        _ => None,
    }
}

/// The bits of a 32-bit integer operand.
pub open spec fn bits_operand(v: ValueSpec) -> Option<u32> {
    match v {
        ValueSpec::S32(x) => Some(x as u32),
        ValueSpec::U32(x) => Some(x),
        _ => None,
    }
}

pub open spec fn abs(a: int) -> nat {
    if a < 0 {
        (-a) as nat
    } else {
        a as nat
    }
}

/// Division rounding toward zero.
pub open spec fn trunc_div(a: int, b: int) -> int {
    if b == 0 {
        0
    } else if (a < 0) != (b < 0) {
        -((abs(a) / abs(b)) as int)
    } else {
        (abs(a) / abs(b)) as int
    }
}

/// The remainder of division rounding toward zero: it has the dividend's
/// sign.
pub open spec fn trunc_rem(a: int, b: int) -> int {
    if b == 0 {
        0
    } else if a < 0 {
        -((abs(a) % abs(b)) as int)
    } else {
        (abs(a) % abs(b)) as int
    }
}

/// The least non-negative remainder.
pub open spec fn euclid_rem(a: int, b: int) -> int {
    if trunc_rem(a, b) < 0 {
        trunc_rem(a, b) + abs(b)
    } else {
        trunc_rem(a, b)
    }
}

/// A 32-bit integer result of the value `v`, wrapped to 32 bits.
pub open spec fn int_result(signed: bool, v: int) -> ValueSpec {
    if signed {
        ValueSpec::S32(v as i32)
    } else {
        ValueSpec::U32(v as u32)
    }
}

/// The value of a conversion (`UConvert`, `SConvert`, `FConvert`,
/// `Bitcast`) or a negation (`SNegate`, `FNegate`) of one operand.
pub open spec fn eval_unary(op: u32, ty: Type, x: ValueSpec) -> Option<ValueSpec> {
    if op == OP_U_CONVERT {
        match (x, int32_result(ty)) {
            (ValueSpec::U32(v), Some(false)) => Some(ValueSpec::U32(v)),
            _ => None,
        }
    } else if op == OP_S_CONVERT {
        match (x, int32_result(ty)) {
            (ValueSpec::S32(v), Some(true)) => Some(ValueSpec::S32(v)),
            _ => None,
        }
    } else if op == OP_F_CONVERT {
        match x {
            ValueSpec::F32(v) if f32_result(ty) => Some(ValueSpec::F32(v)),
            _ => None,
        }
    } else if op == OP_BITCAST {
        let bits = match x {
            ValueSpec::U32(v) => Some(v),
            ValueSpec::S32(v) => Some(v as u32),
            ValueSpec::F32(v) => Some(v),
            _ => None,
        };
        match bits {
            Some(b) => match int32_result(ty) {
                Some(true) => Some(ValueSpec::S32(b as i32)),
                Some(false) => Some(ValueSpec::U32(b)),
                None => if f32_result(ty) {
                    Some(ValueSpec::F32(b))
                } else {
                    None
                },
            },
            None => None,
        }
    } else if op == OP_S_NEGATE {
        match (x, int32_result(ty)) {
            (ValueSpec::S32(v), Some(true)) => Some(ValueSpec::S32((-v) as i32)),
            _ => None,
        }
    } else if op == OP_F_NEGATE {
        match x {
            ValueSpec::F32(v) if f32_result(ty) => Some(ValueSpec::F32(v ^ 0x8000_0000u32)),
            _ => None,
        }
    } else {
        None
    }
}

/// The value of an integer arithmetic operation on two operands.
pub open spec fn eval_arith(op: u32, ty: Type, x: ValueSpec, y: ValueSpec) -> Option<ValueSpec> {
    let signed = int32_result(ty);
    if signed is None {
        None
    } else if op == OP_U_DIV || op == OP_U_MOD {
        match (uint_operand(x), uint_operand(y)) {
            (Some(a), Some(b)) => Some(
                int_result(
                    signed->0,
                    if op == OP_U_DIV {
                        a / b
                    } else {
                        a % b
                    },
                ),
            ),
            _ => None,
        }
    } else {
        match (int_operand(x), int_operand(y)) {
            (Some(a), Some(b)) => if op == OP_I_ADD {
                Some(int_result(signed->0, a + b))
            } else if op == OP_I_SUB {
                Some(int_result(signed->0, a - b))
            } else if op == OP_I_MUL {
                Some(int_result(signed->0, a * b))
            } else if op == OP_S_DIV {
                Some(int_result(signed->0, trunc_div(a, b)))
            } else if op == OP_S_REM && signed->0 {
                Some(int_result(true, trunc_rem(a, b)))
            } else if op == OP_S_MOD && signed->0 {
                Some(int_result(true, euclid_rem(a, b)))
            } else {
                None
            },
            _ => None,
        }
    }
}

/// The value of a shift or a bitwise operation on two operands.
pub open spec fn eval_bits(op: u32, ty: Type, x: ValueSpec, y: ValueSpec) -> Option<ValueSpec> {
    match int32_result(ty) {
        None => None,
        Some(signed) => if op == OP_SHIFT_RIGHT_ARITHMETIC {
            let base: i32 = match x {
                ValueSpec::S32(v) => v,
                ValueSpec::U32(v) => v as i32,
                _ => 0,
            };
            match (x, bits_operand(y)) {
                (ValueSpec::S32(_), Some(s)) | (ValueSpec::U32(_), Some(s)) => Some(
                    if signed {
                        ValueSpec::S32(base >> s)
                    } else {
                        ValueSpec::U32((base >> s) as u32)
                    },
                ),
                _ => None,
            }
        } else {
            match (bits_operand(x), bits_operand(y)) {
                (Some(a), Some(b)) => {
                    let v: u32 = if op == OP_SHIFT_RIGHT_LOGICAL {
                        a >> b
                    } else if op == OP_SHIFT_LEFT_LOGICAL {
                        a << b
                    } else if op == OP_BITWISE_OR {
                        a | b
                    } else if op == OP_BITWISE_XOR {
                        a ^ b
                    } else {
                        a & b
                    };
                    Some(
                        if signed {
                            ValueSpec::S32(v as i32)
                        } else {
                            ValueSpec::U32(v)
                        },
                    )
                },
                _ => None,
            }
        },
    }
}

/// The operations on two 32-bit integer operands.
pub open spec fn is_arith_op(op: u32) -> bool {
    op == OP_I_ADD || op == OP_I_SUB || op == OP_I_MUL || op == OP_U_DIV || op == OP_S_DIV || op
        == OP_U_MOD || op == OP_S_REM || op == OP_S_MOD
}

/// The shifts and the bitwise operations on two operands.
pub open spec fn is_bits_op(op: u32) -> bool {
    op == OP_SHIFT_RIGHT_LOGICAL || op == OP_SHIFT_RIGHT_ARITHMETIC || op == OP_SHIFT_LEFT_LOGICAL
        || op == OP_BITWISE_OR || op == OP_BITWISE_XOR || op == OP_BITWISE_AND
}

/// The operations on one operand.
pub open spec fn is_unary_op(op: u32) -> bool {
    op == OP_U_CONVERT || op == OP_S_CONVERT || op == OP_F_CONVERT || op == OP_BITCAST || op
        == OP_S_NEGATE || op == OP_F_NEGATE
}

/// The value of the operation `op` on `ops` as a constant of type `ty`;
/// floating-point arithmetic is left to the caller.
pub open spec fn eval_spec(op: u32, ty: Type, ops: Seq<ValueSpec>) -> Result<ValueSpec, Error> {
    let r = if is_unary_op(op) && ops.len() == 1 {
        eval_unary(op, ty, ops[0])
    } else if is_arith_op(op) && ops.len() == 2 {
        eval_arith(op, ty, ops[0], ops[1])
    } else if is_bits_op(op) && ops.len() == 2 {
        eval_bits(op, ty, ops[0], ops[1])
    } else if op == OP_NOT && ops.len() == 1 {
        match (bits_operand(ops[0]), int32_result(ty)) {
            (Some(a), Some(signed)) => Some(
                if signed {
                    ValueSpec::S32((!a) as i32)
                } else {
                    ValueSpec::U32(!a)
                },
            ),
            _ => None,
        }
    } else {
        None
    };
    if is_float_op(op) {
        Err(Error::FloatArithmetic(op))
    } else {
        match r {
            Some(v) => Ok(v),
            None => Err(Error::EvaluationFailed(op)),
        }
    }
}

/// Negating a 32-bit float flips its sign and nothing else: the result has
/// the other sign bit and the same magnitude bits, and negating the result
/// gives the operand back.
pub proof fn lemma_f_negate(v: u32)
    ensures
        eval_spec(OP_F_NEGATE, Type::Scalar(ScalarType::Float { bits: 32 }), seq![ValueSpec::F32(v)])
            matches Ok(ValueSpec::F32(r)) && {
            &&& r >> 31u32 != v >> 31u32
            &&& r & 0x7fff_ffffu32 == v & 0x7fff_ffffu32
            &&& eval_spec(
                OP_F_NEGATE,
                Type::Scalar(ScalarType::Float { bits: 32 }),
                seq![ValueSpec::F32(r)],
            ) == Ok::<ValueSpec, Error>(ValueSpec::F32(v))
        },
{
    let ty = Type::Scalar(ScalarType::Float { bits: 32 });
    let r = v ^ 0x8000_0000u32;
    assert(r >> 31u32 != v >> 31u32 && r & 0x7fff_ffffu32 == v & 0x7fff_ffffu32 && r ^ 0x8000_0000u32
        == v) by (bit_vector)
        requires
            r == v ^ 0x8000_0000u32,
    ;
    assert(eval_spec(OP_F_NEGATE, ty, seq![ValueSpec::F32(v)]) == Ok::<ValueSpec, Error>(
        ValueSpec::F32(r),
    ));
}

/// The inputs on which the operation overflows or divides by zero: negating
/// the least `i32`, a product outside `i64`, a division or remainder by
/// zero, and a shift by 32 or more.
pub open spec fn eval_panics(op: u32, ty: Type, ops: Seq<ValueSpec>) -> bool {
    let signed = int32_result(ty);
    if op == OP_S_NEGATE && ops.len() == 1 {
        ops[0] == ValueSpec::S32(i32::MIN) && signed == Some(true)
    } else if ops.len() == 2 && signed is Some {
        if op == OP_I_MUL {
            match (int_operand(ops[0]), int_operand(ops[1])) {
                (Some(a), Some(b)) => !(i64::MIN <= a * b <= i64::MAX),
                _ => false,
            }
        } else if op == OP_U_DIV || op == OP_U_MOD {
            match (uint_operand(ops[0]), uint_operand(ops[1])) {
                (Some(_), Some(b)) => b == 0,
                _ => false,
            }
        } else if op == OP_S_DIV || ((op == OP_S_REM || op == OP_S_MOD) && signed == Some(true)) {
            match (int_operand(ops[0]), int_operand(ops[1])) {
                (Some(_), Some(b)) => b == 0,
                _ => false,
            }
        } else if op == OP_SHIFT_RIGHT_LOGICAL || op == OP_SHIFT_RIGHT_ARITHMETIC || op
            == OP_SHIFT_LEFT_LOGICAL {
            match (bits_operand(ops[0]), bits_operand(ops[1])) {
                (Some(_), Some(s)) => s >= 32,
                _ => false,
            }
        } else {
            false
        }
    } else {
        false
    }
}

/// The views of constant values.
pub open spec fn values_view(vs: Seq<ConstantValue>) -> Seq<ValueSpec> {
    vs.map_values(|v: ConstantValue| v@)
}

fn int32_result_of(ty: &Type) -> (r: Option<bool>)
    ensures
        r == int32_result(*ty),
{
    match ty {
        Type::Scalar(ScalarType::Integer { bits, is_signed }) => if *bits == 32 {
            Some(*is_signed)
        } else {
            None
        },
        _ => None,
    }
}

fn f32_result_of(ty: &Type) -> (r: bool)
    ensures
        r == f32_result(*ty),
{
    match ty {
        Type::Scalar(ScalarType::Float { bits }) => *bits == 32,
        _ => false,
    }
}

fn int_operand_of(v: &ConstantValue) -> (r: Option<i64>)
    ensures
        match int_operand(v@) {
            Some(x) => r == Some(x as i64),
            None => r is None,
        },
{
    match v {
        ConstantValue::S32(x) => Some(*x as i64),
        ConstantValue::U32(x) => Some(*x as i64),
        _ => None,
    }
}

fn uint_operand_of(v: &ConstantValue) -> (r: Option<u64>)
    ensures
        match uint_operand(v@) {
            Some(x) => r == Some(x as u64),
            None => r is None,
        },
{
    match v {
        ConstantValue::S32(x) => Some(*x as u64),
        ConstantValue::U32(x) => Some(*x as u64),
        _ => None,
    }
}

fn bits_operand_of(v: &ConstantValue) -> (r: Option<u32>)
    ensures
        r == bits_operand(v@),
{
    match v {
        ConstantValue::S32(x) => Some(*x as u32),
        ConstantValue::U32(x) => Some(*x),
        _ => None,
    }
}

fn int_result_of(signed: bool, v: i64) -> (r: ConstantValue)
    ensures
        r@ == int_result(signed, v as int),
{
    assert(((v & 0xffff_ffffi64) as i32) == (v as i32)) by (bit_vector);
    assert(((v & 0xffff_ffffi64) as u32) == (v as u32)) by (bit_vector);
    if signed {
        ConstantValue::S32((v & 0xffff_ffffi64) as i32)
    } else {
        ConstantValue::U32((v & 0xffff_ffffi64) as u32)
    }
}

fn eval_unary_of(op: u32, ty: &Type, x: &ConstantValue) -> (r: Option<ConstantValue>)
    requires
        is_unary_op(op),
        !eval_panics(op, *ty, seq![x@]),
    ensures
        match eval_unary(op, *ty, x@) {
            Some(v) => r matches Some(c) && c@ == v,
            None => r is None,
        },
{
    let signed = int32_result_of(ty);
    let is_f32 = f32_result_of(ty);
    if op == OP_U_CONVERT {
        match (x, signed) {
            (ConstantValue::U32(v), Some(false)) => Some(ConstantValue::U32(*v)),
            _ => None,
        }
    } else if op == OP_S_CONVERT {
        match (x, signed) {
            (ConstantValue::S32(v), Some(true)) => Some(ConstantValue::S32(*v)),
            _ => None,
        }
    } else if op == OP_F_CONVERT {
        match x {
            ConstantValue::F32(v) => if is_f32 {
                Some(ConstantValue::F32(*v))
            } else {
                None
            },
            _ => None,
        }
    } else if op == OP_BITCAST {
        let bits = match x {
            ConstantValue::U32(v) => *v,
            ConstantValue::S32(v) => *v as u32,
            ConstantValue::F32(v) => *v,
            _ => return None,
        };
        match signed {
            Some(true) => Some(ConstantValue::S32(bits as i32)),
            Some(false) => Some(ConstantValue::U32(bits)),
            None => if is_f32 {
                Some(ConstantValue::F32(bits))
            } else {
                None
            },
        }
    } else if op == OP_S_NEGATE {
        match (x, signed) {
            (ConstantValue::S32(v), Some(true)) => Some(ConstantValue::S32(-*v)),
            _ => None,
        }
    } else {
        match x {
            ConstantValue::F32(v) => if is_f32 {
                Some(ConstantValue::F32(*v ^ 0x8000_0000u32))
            } else {
                None
            },
            _ => None,
        }
    }
}

fn uint_result_of(signed: bool, v: u64) -> (r: ConstantValue)
    ensures
        r@ == int_result(signed, v as int),
{
    assert(((v & 0xffff_ffffu64) as i32) == (v as i32)) by (bit_vector);
    assert(((v & 0xffff_ffffu64) as u32) == (v as u32)) by (bit_vector);
    if signed {
        ConstantValue::S32((v & 0xffff_ffffu64) as i32)
    } else {
        ConstantValue::U32((v & 0xffff_ffffu64) as u32)
    }
}

fn magnitude(a: i64) -> (r: u64)
    requires
        a > i64::MIN,
    ensures
        r == abs(a as int),
{
    if a < 0 {
        (-a) as u64
    } else {
        a as u64
    }
}

fn eval_arith_of(op: u32, ty: &Type, x: &ConstantValue, y: &ConstantValue) -> (r: Option<
    ConstantValue,
>)
    requires
        is_arith_op(op),
        !eval_panics(op, *ty, seq![x@, y@]),
    ensures
        match eval_arith(op, *ty, x@, y@) {
            Some(v) => r matches Some(c) && c@ == v,
            None => r is None,
        },
{
    let signed = match int32_result_of(ty) {
        Some(s) => s,
        None => return None,
    };
    if op == OP_U_DIV || op == OP_U_MOD {
        let a = match uint_operand_of(x) {
            Some(a) => a,
            None => return None,
        };
        let b = match uint_operand_of(y) {
            Some(b) => b,
            None => return None,
        };
        let v: u64 = if op == OP_U_DIV {
            a / b
        } else {
            a % b
        };
        return Some(uint_result_of(signed, v));
    }
    let a = match int_operand_of(x) {
        Some(a) => a,
        None => return None,
    };
    let b = match int_operand_of(y) {
        Some(b) => b,
        None => return None,
    };
    if op == OP_I_ADD {
        Some(int_result_of(signed, a + b))
    } else if op == OP_I_SUB {
        Some(int_result_of(signed, a - b))
    } else if op == OP_I_MUL {
        Some(int_result_of(signed, a * b))
    } else if op == OP_S_DIV {
        let ua = magnitude(a);
        let ub = magnitude(b);
        let q = ua / ub;
        assert(q <= ua);
        let v: i64 = if (a < 0) != (b < 0) {
            -(q as i64)
        } else {
            q as i64
        };
        Some(int_result_of(signed, v))
    } else if op == OP_S_REM && signed {
        let ua = magnitude(a);
        let ub = magnitude(b);
        let m = ua % ub;
        let v: i64 = if a < 0 {
            -(m as i64)
        } else {
            m as i64
        };
        Some(int_result_of(true, v))
    } else if op == OP_S_MOD && signed {
        let ua = magnitude(a);
        let ub = magnitude(b);
        let m = ua % ub;
        let t: i64 = if a < 0 {
            -(m as i64)
        } else {
            m as i64
        };
        let v: i64 = if t < 0 {
            t + ub as i64
        } else {
            t
        };
        Some(int_result_of(true, v))
    } else {
        None
    }
}

fn eval_bits_of(op: u32, ty: &Type, x: &ConstantValue, y: &ConstantValue) -> (r: Option<
    ConstantValue,
>)
    requires
        is_bits_op(op),
        !eval_panics(op, *ty, seq![x@, y@]),
    ensures
        match eval_bits(op, *ty, x@, y@) {
            Some(v) => r matches Some(c) && c@ == v,
            None => r is None,
        },
{
    let signed = match int32_result_of(ty) {
        Some(s) => s,
        None => return None,
    };
    if op == OP_SHIFT_RIGHT_ARITHMETIC {
        let base: i32 = match x {
            ConstantValue::S32(v) => *v,
            ConstantValue::U32(v) => *v as i32,
            _ => return None,
        };
        let s = match bits_operand_of(y) {
            Some(s) => s,
            None => return None,
        };
        let v = base >> s;
        Some(
            if signed {
                ConstantValue::S32(v)
            } else {
                ConstantValue::U32(v as u32)
            },
        )
    } else {
        let a = match bits_operand_of(x) {
            Some(a) => a,
            None => return None,
        };
        let b = match bits_operand_of(y) {
            Some(b) => b,
            None => return None,
        };
        let v: u32 = if op == OP_SHIFT_RIGHT_LOGICAL {
            a >> b
        } else if op == OP_SHIFT_LEFT_LOGICAL {
            a << b
        } else if op == OP_BITWISE_OR {
            a | b
        } else if op == OP_BITWISE_XOR {
            a ^ b
        } else {
            a & b
        };
        Some(
            if signed {
                ConstantValue::S32(v as i32)
            } else {
                ConstantValue::U32(v)
            },
        )
    }
}

/// Evaluate the operation `op` on constant operands as a constant of type
/// `result_ty`; see `eval_spec`.
pub fn evaluate(op: u32, result_ty: &Type, operands: &[ConstantValue]) -> (r: Result<
    ConstantValue,
    Error,
>)
    requires
        !eval_panics(op, *result_ty, values_view(operands@)),
    ensures
        match eval_spec(op, *result_ty, values_view(operands@)) {
            Ok(v) => r matches Ok(c) && c@ == v,
            Err(e) => r == Err::<ConstantValue, Error>(e),
        },
{
    let ghost ops = values_view(operands@);
    if op == OP_CONVERT_F_TO_U || op == OP_CONVERT_F_TO_S || op == OP_CONVERT_S_TO_F || op
        == OP_CONVERT_U_TO_F || op == OP_F_ADD || op == OP_F_SUB || op == OP_F_MUL || op
        == OP_F_DIV || op == OP_F_REM || op == OP_F_MOD {
        return Err(Error::FloatArithmetic(op));
    }
    let n = operands.len();
    let r = if (op == OP_U_CONVERT || op == OP_S_CONVERT || op == OP_F_CONVERT || op == OP_BITCAST
        || op == OP_S_NEGATE || op == OP_F_NEGATE) && n == 1 {
        proof {
            assert(seq![operands@[0]@] =~= ops);
        }
        eval_unary_of(op, result_ty, &operands[0])
    } else if (op == OP_I_ADD || op == OP_I_SUB || op == OP_I_MUL || op == OP_U_DIV || op
        == OP_S_DIV || op == OP_U_MOD || op == OP_S_REM || op == OP_S_MOD) && n == 2 {
        proof {
            assert(seq![operands@[0]@, operands@[1]@] =~= ops);
        }
        eval_arith_of(op, result_ty, &operands[0], &operands[1])
    } else if (op == OP_SHIFT_RIGHT_LOGICAL || op == OP_SHIFT_RIGHT_ARITHMETIC || op
        == OP_SHIFT_LEFT_LOGICAL || op == OP_BITWISE_OR || op == OP_BITWISE_XOR || op
        == OP_BITWISE_AND) && n == 2 {
        proof {
            assert(seq![operands@[0]@, operands@[1]@] =~= ops);
        }
        eval_bits_of(op, result_ty, &operands[0], &operands[1])
    } else if op == OP_NOT && n == 1 {
        match (bits_operand_of(&operands[0]), int32_result_of(result_ty)) {
            (Some(a), Some(signed)) => Some(
                if signed {
                    ConstantValue::S32((!a) as i32)
                } else {
                    ConstantValue::U32(!a)
                },
            ),
            _ => None,
        }
    } else {
        None
    };
    match r {
        Some(v) => Ok(v),
        None => Err(Error::EvaluationFailed(op)),
    }
}

/// The values of the constants with the given ids.
pub open spec fn operand_values(consts: Map<u32, Constant>, ids: Seq<u32>) -> Seq<ValueSpec> {
    ids.map_values(|id: u32| consts[id].value@)
}

/// Constants of a module and the extended instruction sets it imports,
/// keyed by their result ids.
pub struct Evaluator {
    ext_instr_set: HashMap<u32, String>,
    values: HashMap<u32, Constant>,
}

impl Default for Evaluator {
    fn default() -> (r: Evaluator)
        ensures
            r.ext_sets() == Map::<u32, String>::empty(),
            r.consts() == Map::<u32, Constant>::empty(),
    {
        Evaluator::new()
    }
}

/// The operands all name known constants, and the original evaluation
/// would panic on their values (see `eval_panics`).
pub open spec fn interpret_panics(ev: Evaluator, op: u32, result_ty: Type, ids: Seq<u32>) -> bool {
    (forall|i: int| 0 <= i < ids.len() ==> ev.consts().contains_key(#[trigger] ids[i]))
        && eval_panics(op, result_ty, operand_values(ev.consts(), ids))
}

/// What interpreting `op` on the constants `ids` as the constant
/// `result_id` of type `result_ty` gives and leaves, from the evaluator
/// `ev0` to `ev1`: an unknown operand breaks the expression tree; a failed
/// evaluation reports its error; a taken result id is a collision; and
/// otherwise the new unnamed constant with the evaluated value is recorded
/// under `result_id` and returned. On every error the constants stay.
pub open spec fn interpreted(
    ev0: Evaluator,
    ev1: Evaluator,
    op: u32,
    result_id: u32,
    result_ty: Type,
    ids: Seq<u32>,
    r: Result<&Constant, Error>,
) -> bool {
    &&& ev1.ext_sets() == ev0.ext_sets()
    &&& !(forall|i: int| 0 <= i < ids.len() ==> ev0.consts().contains_key(#[trigger] ids[i]))
        ==> r == Err::<&Constant, Error>(Error::BrokenExpressionTree(result_id)) && ev1.consts()
        == ev0.consts()
    &&& (forall|i: int| 0 <= i < ids.len() ==> ev0.consts().contains_key(#[trigger] ids[i]))
        ==> match eval_spec(op, result_ty, operand_values(ev0.consts(), ids)) {
        Err(e) => r == Err::<&Constant, Error>(e) && ev1.consts() == ev0.consts(),
        Ok(v) => if ev0.consts().contains_key(result_id) {
            r == Err::<&Constant, Error>(Error::ConstantCollision(result_id)) && ev1.consts()
                == ev0.consts()
        } else {
            r matches Ok(c) && ev1.consts().contains_key(result_id) && ev1.consts()[result_id]
                == *c && c.name is None && c.spec_id is None && crate::ty::copy::ty_same(
                c.ty,
                result_ty,
            ) && c.value@ == v && ev1.consts() == ev0.consts().insert(result_id, *c)
        },
    }
}

/// Interpreting never overwrites a constant and changes nothing when it
/// fails: on success the new constant, unnamed and of the result type, is
/// recorded under the result id and every other constant stays; on failure
/// every constant stays; and a result id that is taken always fails.
pub proof fn lemma_interpret_law(
    ev0: Evaluator,
    ev1: Evaluator,
    op: u32,
    result_id: u32,
    result_ty: Type,
    ids: Seq<u32>,
    r: Result<&Constant, Error>,
)
    requires
        interpreted(ev0, ev1, op, result_id, result_ty, ids, r),
    ensures
        r matches Ok(c) ==> {
            &&& ev1.consts().contains_key(result_id)
            &&& ev1.consts()[result_id] == *c
            &&& c.name is None
            &&& c.spec_id is None
            &&& crate::ty::copy::ty_same(c.ty, result_ty)
            &&& forall|k: u32| k != result_id ==> #[trigger] ev1.consts().contains_key(k)
                == ev0.consts().contains_key(k) && (ev0.consts().contains_key(k) ==> ev1.consts()[k]
                == ev0.consts()[k])
        },
        r is Err ==> ev1.consts() == ev0.consts(),
        ev0.consts().contains_key(result_id) ==> r is Err,
{
}

/// How an instruction is read for interpreting it: its result type id, the
/// type registered for it, its result id, then the ids of its operands; the
/// operation is the instruction's opcode.
pub open spec fn interpret_args(ws: Seq<u32>, tys: Map<u32, Type>) -> Result<
    (u32, u32, Type, Seq<u32>),
    Error,
> {
    let ops = ws.skip(1);
    if ops.len() == 0 {
        Err(Error::OperandTooShort)
    } else if !tys.contains_key(ops[0]) {
        Err(Error::MissingType(ops[0]))
    } else if ops.len() < 2 {
        Err(Error::OperandTooShort)
    } else {
        Ok((opcode_of(ws[0]), ops[1], tys[ops[0]], ops.skip(2)))
    }
}

impl Evaluator {
    /// The imported extended instruction sets by id.
    pub closed spec fn ext_sets(self) -> Map<u32, String> {
        self.ext_instr_set@
    }

    /// The constants by id.
    pub closed spec fn consts(self) -> Map<u32, Constant> {
        self.values@
    }

    pub fn new() -> (r: Self)
        ensures
            r.ext_sets() == Map::<u32, String>::empty(),
            r.consts() == Map::<u32, Constant>::empty(),
    {
        Self { ext_instr_set: HashMap::new(), values: HashMap::new() }
    }

    /// Record the extended instruction set imported as `id`; an id can be
    /// imported once.
    pub fn import_ext_instr_set(&mut self, id: u32, name: String) -> (r: Result<(), Error>)
        ensures
            r is Ok <==> !old(self).ext_sets().contains_key(id),
            r is Ok ==> final(self).ext_sets() == old(self).ext_sets().insert(id, name),
            r is Err ==> r == Err::<(), Error>(Error::ExtInstrSetCollision(id)) && final(self).ext_sets() == old(self).ext_sets(),
            final(self).consts() == old(self).consts(),
    {
        if self.ext_instr_set.contains_key(&id) {
            return Err(Error::ExtInstrSetCollision(id));
        }
        self.ext_instr_set.insert(id, name);
        Ok(())
    }

    /// The name of the extended instruction set imported as `id`.
    pub fn get_ext_instr_set_name(&mut self, id: u32) -> (r: Result<&str, Error>)
        ensures
            *final(self) == *old(self),
            match r {
                Ok(s) => old(self).ext_sets().contains_key(id) && s@ == old(self).ext_sets()[id]@,
                Err(e) => !old(self).ext_sets().contains_key(id) && e == Error::MissingExtInstrSet(
                    id,
                ),
            },
    {
        match self.ext_instr_set.get(&id) {
            Some(s) => Ok(s.as_str()),
            None => Err(Error::MissingExtInstrSet(id)),
        }
    }

    /// Record the constant defined as `id`; an id can be defined once.
    pub fn set(&mut self, id: u32, constant: Constant) -> (r: Result<&Constant, Error>)
        ensures
            r is Ok <==> !old(self).consts().contains_key(id),
            match r {
                Ok(c) => final(self).consts() == old(self).consts().insert(id, constant) && *c
                    == constant,
                Err(e) => e == Error::ConstantCollision(id) && final(self).consts() == old(self).consts(),
            },
            final(self).ext_sets() == old(self).ext_sets(),
    {
        if self.values.contains_key(&id) {
            return Err(Error::ConstantCollision(id));
        }
        self.values.insert(id, constant);
        match self.values.get(&id) {
            Some(c) => Ok(c),
            None => Err(Error::ConstantCollision(id)),
        }
    }

    /// The constant defined as `id`.
    pub fn get(&self, id: u32) -> (r: Result<&Constant, Error>)
        ensures
            match r {
                Ok(c) => self.consts().contains_key(id) && *c == self.consts()[id],
                Err(e) => !self.consts().contains_key(id) && e == Error::MissingConstant(id),
            },
    {
        match self.values.get(&id) {
            Some(c) => Ok(c),
            None => Err(Error::MissingConstant(id)),
        }
    }

    /// The value of the constant defined as `id`.
    pub fn get_value(&self, id: u32) -> (r: Result<&ConstantValue, Error>)
        ensures
            match r {
                Ok(v) => self.consts().contains_key(id) && *v == self.consts()[id].value,
                Err(e) => !self.consts().contains_key(id) && e == Error::MissingConstant(id),
            },
    {
        match self.get(id) {
            Ok(c) => Ok(&c.value),
            Err(e) => Err(e),
        }
    }

    /// All constants with their ids, each once, in no particular order.
    pub fn iter(&self) -> (r: Vec<(u32, &Constant)>)
        ensures
            r@.len() == self.consts().dom().len(),
            forall|i: int|
                0 <= i < r@.len() ==> #[trigger] self.consts().contains_key(r@[i].0)
                    && self.consts()[r@[i].0] == *r@[i].1,
            forall|k: u32| #[trigger] self.consts().contains_key(k) ==> exists|i: int|
                0 <= i < r@.len() && r@[i].0 == k,
            forall|i: int, j: int| 0 <= i < j < r@.len() ==> r@[i].0 != r@[j].0,
    {
        let mut out: Vec<(u32, &Constant)> = Vec::new();
        let ghost items = spec_hash_map_iter(&self.values).remaining();
        for p in it: self.values.iter()
            invariant
                it.seq() == items,
                out@.len() == it.index(),
                forall|i: int|
                    0 <= i < it.index() ==> #[trigger] out@[i] == (*it.seq()[i].0, it.seq()[i].1),
        {
            let (k, v) = p;
            out.push((*k, v));
        }
        assert(forall|i: int| 0 <= i < out@.len() ==> out@[i].0 == *items[i].0);
        assert forall|k: u32| #[trigger] self.consts().contains_key(k) implies exists|i: int|
            0 <= i < out@.len() && out@[i].0 == k by {
            assert(items.contains((&k, &self.consts()[k])));
            let i = choose|i: int| 0 <= i < items.len() && items[i] == (&k, &self.consts()[k]);
            assert(out@[i].0 == k);
        }
        assert forall|i: int, j: int| 0 <= i < j < out@.len() implies out@[i].0 != out@[j].0 by {
            assert(items.no_duplicates());
            if out@[i].0 == out@[j].0 {
                assert(self.consts()[out@[i].0] == *items[i].1);
                assert(items[i] == items[j]);
            }
        }
        out
    }

    /// Evaluate the operation `op` on the constants `operand_ids` and
    /// record the result as the intermediate constant `result_id` of type
    /// `result_ty`.
    pub fn interpret(
        &mut self,
        op: u32,
        result_id: u32,
        result_ty: &Type,
        operand_ids: &[u32],
    ) -> (r: Result<&Constant, Error>)
        requires
            !interpret_panics(*old(self), op, *result_ty, operand_ids@),
        ensures
            interpreted(*old(self), *final(self), op, result_id, *result_ty, operand_ids@, r),
    {
        let mut operands: Vec<ConstantValue> = Vec::new();
        let mut i: usize = 0;
        while i < operand_ids.len()
            invariant
                *self == *old(self),
                i <= operand_ids@.len(),
                operands@.len() == i,
                forall|j: int|
                    0 <= j < i ==> self.consts().contains_key(#[trigger] operand_ids@[j]),
                forall|j: int|
                    0 <= j < i ==> (#[trigger] operands@[j])@ == self.consts()[operand_ids@[j]].value@,
            decreases operand_ids@.len() - i,
        {
            match self.get_value(operand_ids[i]) {
                Ok(v) => {
                    operands.push(v.clone());
                },
                Err(_) => {
                    return Err(Error::BrokenExpressionTree(result_id));
                },
            }
            i = i + 1;
        }
        proof {
            assert(values_view(operands@) =~= operand_values(self.consts(), operand_ids@));
        }
        let value = evaluate(op, result_ty, operands.as_slice())?;
        self.set(result_id, Constant::new_itm(result_ty.clone(), value))
    }

    /// Interpret an instruction whose operands are its result type id, its
    /// result id and the ids of the constants it operates on; see
    /// `interpret_args` and `interpreted`.
    pub fn interpret_instr(&mut self, ty_reg: &TypeRegistry, instr: &Instr) -> (r: Result<
        &Constant,
        Error,
    >)
        requires
            interpret_args(instr@, ty_reg@) matches Ok((op, rid, ty, ids)) ==> !interpret_panics(
                *old(self),
                op,
                ty,
                ids,
            ),
        ensures
            match interpret_args(instr@, ty_reg@) {
                Err(e) => r == Err::<&Constant, Error>(e) && *final(self) == *old(self),
                Ok((op, rid, ty, ids)) => interpreted(*old(self), *final(self), op, rid, ty, ids, r),
            },
    {
        let mut operands = instr.operands();
        let result_ty_id = operands.read_u32()?;
        let result_ty = ty_reg.get(result_ty_id)?;
        let result_id = operands.read_u32()?;
        let ids = operands.read_list()?;
        proof {
            assert(ids@ =~= instr@.skip(1).skip(2));
        }
        self.interpret(instr.opcode(), result_id, result_ty, ids)
    }

    /// Copies of all constants, ordered by their ids.
    pub fn constants(&self) -> (r: Vec<Constant>)
        ensures
            r@.len() == self.consts().dom().len(),
            exists|ids: Seq<u32>|
                {
                    &&& ids.len() == r@.len()
                    &&& increasing(ids)
                    &&& forall|k: u32| self.consts().contains_key(k) <==> ids.contains(k)
                    &&& forall|i: int|
                        0 <= i < ids.len() ==> {
                            let c = self.consts()[#[trigger] ids[i]];
                            &&& r@[i].name == c.name
                            &&& crate::ty::copy::ty_same(r@[i].ty, c.ty)
                            &&& r@[i].value@ == c.value@
                            &&& r@[i].spec_id == c.spec_id
                        }
                },
    {
        let entries = self.iter();
        let mut keys: Vec<u32> = Vec::new();
        let mut i: usize = 0;
        while i < entries.len()
            invariant
                i <= entries@.len(),
                keys@.len() == i,
                forall|j: int| 0 <= j < i ==> keys@[j] == #[trigger] entries@[j].0,
            decreases entries@.len() - i,
        {
            keys.push(entries[i].0);
            i = i + 1;
        }
        assert(keys@.no_duplicates()) by {
            assert forall|a: int, b: int| 0 <= a < b < keys@.len() implies keys@[a] != keys@[b] by {
                assert(entries@[a].0 != entries@[b].0);
            }
        }
        let ids = sort_ids(&keys);
        assert forall|k: u32| ids@.contains(k) implies self.consts().contains_key(k) by {
            let e = choose|e: int| 0 <= e < keys@.len() && keys@[e] == k;
            assert(entries@[e].0 == k);
        }
        let mut out: Vec<Constant> = Vec::new();
        let mut j: usize = 0;
        while j < ids.len()
            invariant
                j <= ids@.len(),
                out@.len() == j,
                forall|k: u32| ids@.contains(k) ==> self.consts().contains_key(k),
                forall|q: int|
                    0 <= q < j ==> {
                        let c = self.consts()[#[trigger] ids@[q]];
                        &&& out@[q].name == c.name
                        &&& crate::ty::copy::ty_same(out@[q].ty, c.ty)
                        &&& out@[q].value@ == c.value@
                        &&& out@[q].spec_id == c.spec_id
                    },
            decreases ids@.len() - j,
        {
            assert(ids@.contains(ids@[j as int]));
            match self.get(ids[j]) {
                Ok(c) => out.push(c.clone()),
                Err(_) => return out,
            }
            j = j + 1;
        }
        proof {
            assert forall|k: u32| self.consts().contains_key(k) <==> ids@.contains(k) by {
                if self.consts().contains_key(k) {
                    let e = choose|e: int| 0 <= e < entries@.len() && entries@[e].0 == k;
                    assert(keys@[e] == k);
                }
                if ids@.contains(k) {
                    let e = choose|e: int| 0 <= e < keys@.len() && keys@[e] == k;
                    assert(entries@[e].0 == k);
                }
            }
            assert(ids@.to_set() =~= self.consts().dom());
            ids@.unique_seq_to_set();
        }
        out
    }
}

} // verus!
