//! Encoding assembly instructions of no special form into words.
use vstd::prelude::*;

use crate::error::Error;
use crate::parse::instr::{header_word, InstructionBuilder};
use crate::parse::words::{pack_str, string_words};
use crate::spvasm::assembler::{Assembler, IdRef, IdRefSpec, InstrSpec, Instruction, Operand, OperandSpec};
use crate::spvasm::isa::{enum_by_name, enum_from_str, op_by_code, op_has_result_id, op_has_result_type_id, InstructionSet};
use crate::spvasm::operand_enum::{has_enum_operands, operand_enum_spec, operand_enum_type};
use crate::spvasm::tokenizer::{Lit, LitSpec};

verus! {

/// The instruction that `spirv::Op::from_u32` gives for an opcode, by its
/// opcode.
pub uninterp spec fn spirv_op(opcode: u32) -> Option<u32>;

/// Calls `spirv::Op::from_u32`, which gives the SPIR-V instruction with
/// opcode `opcode` if the specification defines one. The claim is that its
/// result, taken by opcode, is `spirv_op(opcode)`, and that an instruction
/// it gives has the opcode asked for; which opcodes are defined is not
/// stated.
#[verifier::external_body]
fn spirv_op_from_u32(opcode: u32) -> (r: Option<u32>)
    ensures
        r == spirv_op(opcode),
        r matches Some(x) ==> x == opcode,
{
    match spirv::Op::from_u32(opcode) {
        Some(op) => Some(op as u32),
        None => None,
    }
}

/// What a float encoder may give for a literal at a width: `w` is the low
/// word of one of its results for a literal viewed as `lit`.
pub open spec fn float_low_word<F: Fn(&Lit, u32) -> u64>(f: F, lit: LitSpec, width: u32, w: u32) -> bool {
    exists|l: Lit, b: u64| l@ == lit && #[trigger] call_ensures(f, (&l, width), b) && w == b as u32
}

/// The word a literal integer operand becomes: a negative one as the two's
/// complement of an `i32`, another as a `u32`; none out of those ranges.
pub open spec fn int_operand_word(v: int) -> Option<u32> {
    if v < 0 {
        if v >= -0x8000_0000 {
            Some((v + 0x1_0000_0000) as u32)
        } else {
            None
        }
    } else if v <= 0xffff_ffff {
        Some(v as u32)
    } else {
        None
    }
}

/// The enumerant an identifier operand at index `j` (counted after the
/// result type id) names.
pub open spec fn ident_operand(opcode: u32, j: int, name: Seq<char>, isa: InstructionSet) -> Result<
    u32,
    Error,
> {
    match operand_enum_spec(opcode, j as usize) {
        Some(ety) => match enum_by_name(isa.enums@, ety@, name) {
            Some(v) => Ok(v),
            None => Err(Error::UnknownEnumerantName),
        },
        None => Err(
            if has_enum_operands(opcode) {
                Error::UnknownOperandIndex(opcode, j as usize)
            } else {
                Error::NotEnumOperand(opcode, j as usize)
            },
        ),
    }
}

/// Why the operand at index `j` cannot be encoded, if it cannot.
pub open spec fn operand_check(opcode: u32, j: int, o: OperandSpec, isa: InstructionSet) -> Result<
    (),
    Error,
> {
    match o {
        OperandSpec::Literal(LitSpec::Int(v)) => if int_operand_word(v) is Some {
            Ok(())
        } else {
            Err(Error::LiteralOutOfRange)
        },
        OperandSpec::Ident(s) => match ident_operand(opcode, j, s, isa) {
            Ok(_) => Ok(()),
            Err(e) => Err(e),
        },
        _ => Ok(()),
    }
}

/// The first reason in order why one of the operands cannot be encoded.
pub open spec fn operands_check(opcode: u32, ops: Seq<OperandSpec>, isa: InstructionSet) -> Result<
    (),
    Error,
>
    decreases ops.len(),
{
    if ops.len() == 0 {
        Ok(())
    } else {
        match operands_check(opcode, ops.drop_last(), isa) {
            Err(e) => Err(e),
            Ok(()) => operand_check(opcode, ops.len() - 1, ops.last(), isa),
        }
    }
}

/// The number of words an operand takes.
pub open spec fn operand_len(o: OperandSpec) -> nat {
    match o {
        OperandSpec::Literal(LitSpec::String(s)) => pack_str(s).len(),
        _ => 1,
    }
}

/// `ws` is an encoding of the operand at index `j`: an id as itself, an
/// integer as `int_operand_word` gives it, a floating-point literal as the
/// low word of what the float encoder gives for it at 32 bits, a string
/// packed into words and an identifier as the enumerant it names.
pub open spec fn operand_words<F: Fn(&Lit, u32) -> u64>(
    opcode: u32,
    j: int,
    o: OperandSpec,
    isa: InstructionSet,
    f: F,
    ws: Seq<u32>,
) -> bool {
    match o {
        OperandSpec::IdRef(IdRefSpec::Id(id)) => ws == seq![id],
        OperandSpec::IdRef(IdRefSpec::Name(_)) => false,
        OperandSpec::Literal(LitSpec::Int(v)) => ws == seq![int_operand_word(v)->0],
        OperandSpec::Literal(LitSpec::Float(m, e)) => ws.len() == 1 && float_low_word(
            f,
            LitSpec::Float(m, e),
            32,
            ws[0],
        ),
        OperandSpec::Literal(LitSpec::String(s)) => ws == pack_str(s),
        OperandSpec::Ident(s) => ws == seq![ident_operand(opcode, j, s, isa)->Ok_0],
    }
}

/// `ws` is an encoding of the operands, one after another.
pub open spec fn operands_words<F: Fn(&Lit, u32) -> u64>(
    opcode: u32,
    ops: Seq<OperandSpec>,
    isa: InstructionSet,
    f: F,
    ws: Seq<u32>,
) -> bool
    decreases ops.len(),
{
    if ops.len() == 0 {
        ws.len() == 0
    } else {
        let k = operand_len(ops.last());
        &&& k <= ws.len()
        &&& operand_words(opcode, ops.len() - 1, ops.last(), isa, f, ws.skip(ws.len() - k))
        &&& operands_words(opcode, ops.drop_last(), isa, f, ws.take(ws.len() - k))
    }
}

/// The result type id of an instruction, if its first operand is a numeric
/// id reference.
pub open spec fn first_id(instr: InstrSpec) -> Option<u32> {
    if instr.operands.len() > 0 {
        match instr.operands[0] {
            OperandSpec::IdRef(IdRefSpec::Id(t)) => Some(t),
            _ => None,
        }
    } else {
        None
    }
}

/// The words an instruction puts before its other operands (its result type
/// id and its result id, where it has them) and those other operands, or
/// why it cannot be encoded: its opcode must be one of SPIR-V's (`op` is
/// what SPIR-V gives for it) and one the instruction set describes.
pub open spec fn general_head(instr: InstrSpec, op: Option<u32>, isa: InstructionSet) -> Result<
    (Seq<u32>, Seq<OperandSpec>),
    Error,
> {
    if op is None {
        Err(Error::UnknownOpcode(instr.opcode))
    } else {
        match op_by_code(isa.ops@, instr.opcode) {
            None => Err(Error::UnsupportedOpcode(instr.opcode)),
            Some(info) => {
                let has_ty = info.has_result_type_id;
                if has_ty && first_id(instr) is None {
                    Err(Error::ExpectedResultTypeId(instr.opcode))
                } else {
                    let head = if has_ty {
                        seq![first_id(instr)->0]
                    } else {
                        Seq::empty()
                    };
                    let rest = if has_ty {
                        instr.operands.drop_first()
                    } else {
                        instr.operands
                    };
                    if info.has_result_id {
                        match instr.result_id {
                            Some(IdRefSpec::Id(id)) => Ok((head.push(id), rest)),
                            _ => Err(Error::ExpectedResultId(instr.opcode)),
                        }
                    } else if instr.result_id is Some {
                        Err(Error::UnexpectedResultId(instr.opcode))
                    } else {
                        Ok((head, rest))
                    }
                }
            },
        }
    }
}

/// Why an instruction cannot be encoded, or its head and other operands.
pub open spec fn general_check(instr: InstrSpec, op: Option<u32>, isa: InstructionSet) -> Result<
    (Seq<u32>, Seq<OperandSpec>),
    Error,
> {
    match general_head(instr, op, isa) {
        Err(e) => Err(e),
        Ok((head, rest)) => match operands_check(instr.opcode, rest, isa) {
            Err(e) => Err(e),
            Ok(()) => Ok((head, rest)),
        },
    }
}

/// The instruction has a result type id whose number is `t`.
pub open spec fn result_type_id(instr: InstrSpec, op: Option<u32>, isa: InstructionSet, t: u32) -> bool {
    &&& op is Some
    &&& op_by_code(isa.ops@, instr.opcode) matches Some(info) && info.has_result_type_id
    &&& first_id(instr) == Some(t)
}

/// The id bound after the instruction's result type id is read: raised
/// past it.
pub open spec fn general_bound(instr: InstrSpec, op: Option<u32>, isa: InstructionSet, b: u32) -> u32 {
    if result_type_id(instr, op, isa, first_id(instr)->0) && b < first_id(instr)->0 + 1 {
        (first_id(instr)->0 + 1) as u32
    } else {
        b
    }
}

/// An operand that can be encoded at all: no name left unresolved and no
/// string holding a NUL.
pub open spec fn operand_encodable(o: OperandSpec) -> bool {
    match o {
        OperandSpec::IdRef(IdRefSpec::Name(_)) => false,
        OperandSpec::Literal(LitSpec::String(s)) => !s.contains('\0'),
        _ => true,
    }
}

/// Encoding the instruction reaches no operation that cannot be done: a
/// result type id is below the largest `u32`, and each operand reached
/// (every one before it passes its checks) can be encoded.
pub open spec fn general_encodable(instr: InstrSpec, op: Option<u32>, isa: InstructionSet) -> bool {
    &&& forall|t: u32| result_type_id(instr, op, isa, t) ==> t < u32::MAX
    &&& general_head(instr, op, isa) matches Ok((_, rest)) ==> forall|k: int|
        0 <= k < rest.len() && operands_check(instr.opcode, rest.take(k), isa) is Ok
            ==> operand_encodable(#[trigger] rest[k])
}

/// `ws` is the encoding of an instruction with opcode `opcode`, the head
/// words `head` and the other operands `rest`: the word count and opcode,
/// the head, then the operands.
pub open spec fn general_words<F: Fn(&Lit, u32) -> u64>(
    opcode: u32,
    head: Seq<u32>,
    rest: Seq<OperandSpec>,
    isa: InstructionSet,
    f: F,
    ws: Seq<u32>,
) -> bool {
    &&& ws.len() >= 1 + head.len()
    &&& ws[0] == header_word(opcode & 0xffffu32, ws.len())
    &&& ws.subrange(1, 1 + head.len() as int) == head
    &&& operands_words(opcode, rest, isa, f, ws.skip(1 + head.len() as int))
}

/// The words of the operand at index `j`, or why it cannot be encoded.
fn operand_to_words<F: Fn(&Lit, u32) -> u64>(
    opcode: u32,
    j: usize,
    o: &Operand,
    isa: &InstructionSet,
    float_bits: &F,
) -> (r: Result<Vec<u32>, Error>)
    requires
        forall|l: &Lit, w: u32| float_bits.requires((l, w)),
        operand_encodable(o@),
    ensures
        match operand_check(opcode, j as int, o@, *isa) {
            Err(e) => r == Err::<Vec<u32>, Error>(e),
            Ok(()) => r matches Ok(ws) && ws@.len() == operand_len(o@) && operand_words(
                opcode,
                j as int,
                o@,
                *isa,
                *float_bits,
                ws@,
            ),
        },
{
    match o {
        Operand::IdRef(IdRef::Id(id)) => Ok(one_word(*id)),
        Operand::IdRef(IdRef::Name(_)) => Err(Error::UnexpectedToken),
        Operand::Literal(lit) => match lit {
            Lit::Int(v) => {
                let v = *v;
                if v < 0 {
                    if v >= -2147483648i64 {
                        Ok(one_word((v + 4294967296i64) as u32))
                    } else {
                        Err(Error::LiteralOutOfRange)
                    }
                } else if v <= 4294967295i64 {
                    Ok(one_word(v as u32))
                } else {
                    Err(Error::LiteralOutOfRange)
                }
            },
            Lit::Float(m, e) => {
                let b = float_bits(lit, 32);
                let ws = one_word(#[verifier::truncate] (b as u32));
                proof {
                    assert(lit@ == LitSpec::Float(m@, *e as int));
                    assert(float_low_word(*float_bits, lit@, 32, ws@[0]));
                }
                Ok(ws)
            },
            Lit::String(s) => Ok(string_words(s.as_str())),
        },
        Operand::Ident(name) => {
            let ety = operand_enum_type(opcode, j)?;
            let v = enum_from_str(isa, ety, name.as_str())?;
            Ok(one_word(v))
        },
    }
}

/// A single word.
fn one_word(w: u32) -> (r: Vec<u32>)
    ensures
        r@ == seq![w],
{
    let mut r = Vec::new();
    r.push(w);
    assert(r@ =~= seq![w]);
    r
}

/// Checking one more operand after the first `n` pass.
proof fn lemma_check_step(opcode: u32, ops: Seq<OperandSpec>, n: int, isa: InstructionSet)
    requires
        0 <= n < ops.len(),
        operands_check(opcode, ops.take(n), isa) is Ok,
    ensures
        operands_check(opcode, ops.take(n + 1), isa) == operand_check(opcode, n, ops[n], isa),
{
    assert(ops.take(n + 1).drop_last() =~= ops.take(n));
    assert(ops.take(n + 1).last() == ops[n]);
}

/// Encoding one more operand after the first `n` appends its words.
proof fn lemma_words_step<F: Fn(&Lit, u32) -> u64>(
    opcode: u32,
    ops: Seq<OperandSpec>,
    n: int,
    isa: InstructionSet,
    f: F,
    prev: Seq<u32>,
    ws: Seq<u32>,
)
    requires
        0 <= n < ops.len(),
        operands_words(opcode, ops.take(n), isa, f, prev),
        ws.len() == operand_len(ops[n]),
        operand_words(opcode, n, ops[n], isa, f, ws),
    ensures
        operands_words(opcode, ops.take(n + 1), isa, f, prev + ws),
{
    let all = prev + ws;
    assert(ops.take(n + 1).drop_last() =~= ops.take(n));
    assert(ops.take(n + 1).last() == ops[n]);
    assert(all.skip(all.len() - ws.len()) =~= ws);
    assert(all.take(all.len() - ws.len()) =~= prev);
}

/// An error among the first `n` operands is the first error among all.
proof fn lemma_check_prefix(opcode: u32, ops: Seq<OperandSpec>, n: int, isa: InstructionSet)
    requires
        0 <= n <= ops.len(),
    ensures
        operands_check(opcode, ops.take(n), isa) is Err ==> operands_check(opcode, ops, isa)
            == operands_check(opcode, ops.take(n), isa),
    decreases ops.len(),
{
    if n < ops.len() {
        assert(ops.drop_last().take(n) =~= ops.take(n));
        lemma_check_prefix(opcode, ops.drop_last(), n, isa);
    } else {
        assert(ops.take(n) =~= ops);
    }
}

impl Assembler {
    /// Encode an instruction of no special form, given what SPIR-V gives for
    /// its opcode (`op`). Floating-point literal operands are encoded by
    /// `float_bits`, which gives the bits of a numeric literal as a float of
    /// the given width.
    #[verifier::rlimit(30)]
    pub fn encode_general_instr<F: Fn(&Lit, u32) -> u64>(
        &mut self,
        instr: &Instruction,
        op: Option<u32>,
        isa: &InstructionSet,
        float_bits: &F,
    ) -> (r: Result<Vec<u32>, Error>)
        requires
            forall|l: &Lit, w: u32| float_bits.requires((l, w)),
            general_encodable(instr@, op, *isa),
        ensures
            match general_check(instr@, op, *isa) {
                Err(e) => r == Err::<Vec<u32>, Error>(e),
                Ok((head, rest)) => r matches Ok(ws) && general_words(
                    instr.opcode,
                    head,
                    rest,
                    *isa,
                    *float_bits,
                    ws@,
                ),
            },
            final(self).spec_bound() == general_bound(instr@, op, *isa, old(self).spec_bound()),
            final(self).used() == old(self).used(),
            final(self).next() == old(self).next(),
            final(self).scalars() == old(self).scalars(),
            forall|n: Seq<char>| final(self).named(n) == old(self).named(n),
            old(self).wf() ==> final(self).wf(),
    {
        let opcode = instr.opcode;
        if op.is_none() {
            return Err(Error::UnknownOpcode(opcode));
        }
        let has_ty = op_has_result_type_id(isa, opcode)?;
        let mut builder = InstructionBuilder::new(opcode);
        let mut start: usize = 0;
        if has_ty {
            let tid = if instr.operands.len() > 0 {
                match &instr.operands[0] {
                    Operand::IdRef(IdRef::Id(id)) => Some(*id),
                    _ => None,
                }
            } else {
                None
            };
            match tid {
                Some(id) => {
                    assert(result_type_id(instr@, op, *isa, id));
                    builder = builder.push(id);
                    self.raise_bound(id + 1);
                    start = 1;
                },
                None => return Err(Error::ExpectedResultTypeId(opcode)),
            }
        }
        let has_id = op_has_result_id(isa, opcode)?;
        if has_id {
            match &instr.result_id {
                Some(IdRef::Id(id)) => {
                    builder = builder.push(*id);
                },
                _ => return Err(Error::ExpectedResultId(opcode)),
            }
        } else if instr.result_id.is_some() {
            return Err(Error::UnexpectedResultId(opcode));
        }
        let ghost head_ws = builder@;
        let ghost hl = head_ws.len() as int;
        let ghost rest = if has_ty {
            instr@.operands.drop_first()
        } else {
            instr@.operands
        };
        let ghost h = match general_head(instr@, op, *isa) {
            Ok((h, _)) => h,
            Err(_) => Seq::empty(),
        };
        proof {
            assert(general_head(instr@, op, *isa) == Ok::<(Seq<u32>, Seq<OperandSpec>), Error>((h, rest)));
            assert(head_ws == seq![opcode & 0xffffu32] + h);
            assert(rest =~= instr@.operands.skip(start as int));
            assert(rest.take(0) =~= Seq::<OperandSpec>::empty());
        }
        let ghost mut body: Seq<u32> = Seq::empty();
        let mut i: usize = start;
        while i < instr.operands.len()
            invariant
                start <= i <= instr.operands.len(),
                instr@.operands.len() == instr.operands@.len(),
                rest == instr@.operands.skip(start as int),
                general_head(instr@, op, *isa) == Ok::<(Seq<u32>, Seq<OperandSpec>), Error>((h, rest)),
                forall|k: int|
                    0 <= k < rest.len() && operands_check(opcode, rest.take(k), *isa) is Ok
                        ==> operand_encodable(#[trigger] rest[k]),
                forall|l: &Lit, w: u32| float_bits.requires((l, w)),
                opcode == instr.opcode,
                self.spec_bound() == general_bound(instr@, op, *isa, old(self).spec_bound()),
                self.used() == old(self).used(),
                self.next() == old(self).next(),
                self.scalars() == old(self).scalars(),
                forall|n: Seq<char>| self.named(n) == old(self).named(n),
                old(self).wf() ==> self.wf(),
                builder@ == head_ws + body,
                operands_check(opcode, rest.take(i - start), *isa) is Ok,
                operands_words(opcode, rest.take(i - start), *isa, *float_bits, body),
            decreases instr.operands.len() - i,
        {
            let j: usize = i - start;
            proof {
                assert(rest[j as int] == instr@.operands[i as int]);
                assert(instr@.operands[i as int] == instr.operands@[i as int]@);
                assert(operand_encodable(rest[j as int]));
            }
            let ws = match operand_to_words(opcode, j, &instr.operands[i], isa, float_bits) {
                Ok(ws) => ws,
                Err(e) => {
                    proof {
                        lemma_check_step(opcode, rest, j as int, *isa);
                        lemma_check_prefix(opcode, rest, j + 1, *isa);
                    }
                    return Err(e);
                },
            };
            builder = builder.push_list(ws.as_slice());
            proof {
                lemma_check_step(opcode, rest, j as int, *isa);
                lemma_words_step(opcode, rest, j as int, *isa, *float_bits, body, ws@);
                body = body + ws@;
                assert(builder@ =~= head_ws + body);
            }
            i = i + 1;
        }
        proof {
            assert(rest.take(i - start) =~= rest);
        }
        let words = builder.build().into_words();
        proof {
            assert(builder@[0] == head_ws[0]);
            assert(words@.subrange(1, 1 + h.len() as int) =~= h);
            assert(words@.skip(1 + h.len() as int) =~= body);
        }
        Ok(words)
    }

    /// Encode an instruction of no special form: its opcode must be one of
    /// SPIR-V's and one the instruction set describes; see
    /// `encode_general_instr`.
    pub fn assemble_general_instr<F: Fn(&Lit, u32) -> u64>(
        &mut self,
        instr: &Instruction,
        isa: &InstructionSet,
        float_bits: &F,
    ) -> (r: Result<Vec<u32>, Error>)
        requires
            forall|l: &Lit, w: u32| float_bits.requires((l, w)),
            general_encodable(instr@, Some(instr.opcode), *isa),
        ensures
            match general_check(instr@, spirv_op(instr.opcode), *isa) {
                Err(e) => r == Err::<Vec<u32>, Error>(e),
                Ok((head, rest)) => r matches Ok(ws) && general_words(
                    instr.opcode,
                    head,
                    rest,
                    *isa,
                    *float_bits,
                    ws@,
                ),
            },
            final(self).spec_bound() == general_bound(
                instr@,
                spirv_op(instr.opcode),
                *isa,
                old(self).spec_bound(),
            ),
            final(self).used() == old(self).used(),
            final(self).next() == old(self).next(),
            final(self).scalars() == old(self).scalars(),
            forall|n: Seq<char>| final(self).named(n) == old(self).named(n),
            old(self).wf() ==> final(self).wf(),
    {
        let op = spirv_op_from_u32(instr.opcode);
        proof {
            lemma_encodable_any_op(instr@, op, *isa);
        }
        self.encode_general_instr(instr, op, isa, float_bits)
    }
}

/// Whether an instruction can be encoded depends on what SPIR-V gives for
/// its opcode only through whether it gives anything.
proof fn lemma_encodable_any_op(instr: InstrSpec, op: Option<u32>, isa: InstructionSet)
    requires
        general_encodable(instr, Some(instr.opcode), isa),
    ensures
        general_encodable(instr, op, isa),
{
    if op is Some {
        assert(general_head(instr, op, isa) == general_head(instr, Some(instr.opcode), isa));
        assert forall|t: u32| result_type_id(instr, op, isa, t) implies t < u32::MAX by {
            assert(result_type_id(instr, Some(instr.opcode), isa, t));
        }
    }
}

} // verus!
