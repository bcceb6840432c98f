//! Assembling SPIR-V assembly text into a module: the ids in use are
//! marked, names are bound to ids, and the instructions are encoded in
//! order.
use vstd::prelude::*;

use crate::error::Error;
use crate::parse::bin::{SpirvBinary, SpirvHeader, SPIRV_MAGIC};
use crate::parse::instr::built_words;
use crate::spvasm::assembler::{
    constant_decl, converts_floats, first_free, float_constant_words, has_free, lemma_first_free, scalar_decl, Assembler, ConstantEncoding,
    IdRef, IdRefSpec, InstrSpec, Instruction, Operand, OperandSpec, OP_CONSTANT, OP_TYPE_FLOAT,
    OP_TYPE_INT,
};
use crate::spvasm::asm_parse::parsed;
use crate::spvasm::encode::{general_bound, general_check, general_encodable, general_words, spirv_op};
use crate::spvasm::isa::InstructionSet;
use crate::spvasm::tokenizer::Lit;
use crate::ty::ScalarType;

verus! {

/// What encoding an instruction reads and changes: the scalar types
/// declared so far and the id bound.
pub struct EncState {
    pub scalars: Map<u32, ScalarType>,
    pub bound: u32,
}

/// The encoding state of an assembler.
pub open spec fn enc_state(a: Assembler) -> EncState {
    EncState { scalars: a.scalars(), bound: a.spec_bound() }
}

/// The opcodes encoded in a form of their own: `OpTypeInt`, `OpTypeFloat`
/// and `OpConstant`.
pub open spec fn is_special(opcode: u32) -> bool {
    opcode == OP_TYPE_INT || opcode == OP_TYPE_FLOAT || opcode == OP_CONSTANT
}

/// The encoding state after encoding an instruction, and the error it
/// stops on, if any.
pub open spec fn instr_step<G: Fn(&Lit) -> i64>(
    st: EncState,
    i: InstrSpec,
    isa: InstructionSet,
    g: G,
) -> (EncState, Option<Error>) {
    if i.opcode == OP_TYPE_INT {
        match scalar_decl(OP_TYPE_INT, i, 2, st.scalars) {
            Ok((id, lits)) => (
                EncState {
                    scalars: st.scalars.insert(
                        id,
                        ScalarType::Integer { bits: lits[0], is_signed: lits[1] != 0 },
                    ),
                    bound: st.bound,
                },
                None,
            ),
            Err(e) => (st, Some(e)),
        }
    } else if i.opcode == OP_TYPE_FLOAT {
        match scalar_decl(OP_TYPE_FLOAT, i, 1, st.scalars) {
            Ok((id, lits)) => (
                EncState {
                    scalars: st.scalars.insert(id, ScalarType::Float { bits: lits[0] }),
                    bound: st.bound,
                },
                None,
            ),
            Err(e) => (st, Some(e)),
        }
    } else if i.opcode == OP_CONSTANT {
        match constant_decl(i, st.scalars, g) {
            Ok(_) => (st, None),
            Err(e) => (st, Some(e)),
        }
    } else {
        let op = spirv_op(i.opcode);
        let st2 = EncState { scalars: st.scalars, bound: general_bound(i, op, isa, st.bound) };
        match general_check(i, op, isa) {
            Ok(_) => (st2, None),
            Err(e) => (st2, Some(e)),
        }
    }
}

/// `ws` is an encoding of an instruction that encodes without error.
pub open spec fn instr_words<F: Fn(&Lit, u32) -> u64, G: Fn(&Lit) -> i64>(
    st: EncState,
    i: InstrSpec,
    isa: InstructionSet,
    f: F,
    g: G,
    ws: Seq<u32>,
) -> bool {
    if i.opcode == OP_TYPE_INT {
        match scalar_decl(OP_TYPE_INT, i, 2, st.scalars) {
            Ok((id, lits)) => ws == built_words(seq![OP_TYPE_INT & 0xffffu32, id, lits[0], lits[1]]),
            Err(_) => false,
        }
    } else if i.opcode == OP_TYPE_FLOAT {
        match scalar_decl(OP_TYPE_FLOAT, i, 1, st.scalars) {
            Ok((id, lits)) => ws == built_words(seq![OP_TYPE_FLOAT & 0xffffu32, id, lits[0]]),
            Err(_) => false,
        }
    } else if i.opcode == OP_CONSTANT {
        match constant_decl(i, st.scalars, g) {
            Ok(ConstantEncoding::Words(w)) => ws == built_words(seq![OP_CONSTANT & 0xffffu32] + w),
            Ok(ConstantEncoding::Float(tid, id, lit, width)) => float_constant_words(
                f,
                tid,
                id,
                lit,
                width,
                ws,
            ),
            Err(_) => false,
        }
    } else {
        match general_check(i, spirv_op(i.opcode), isa) {
            Ok((head, rest)) => general_words(i.opcode, head, rest, isa, f, ws),
            Err(_) => false,
        }
    }
}


/// The numeric ids the operands refer to.
pub open spec fn operand_ids(ops: Seq<OperandSpec>) -> Set<u32>
    decreases ops.len(),
{
    if ops.len() == 0 {
        Set::empty()
    } else {
        match ops.last() {
            OperandSpec::IdRef(IdRefSpec::Id(id)) => operand_ids(ops.drop_last()).insert(id),
            _ => operand_ids(ops.drop_last()),
        }
    }
}

/// The numeric ids an instruction refers to: its result id and its id
/// operands.
pub open spec fn instr_ids(i: InstrSpec) -> Set<u32> {
    let ops = operand_ids(i.operands);
    match i.result_id {
        Some(IdRefSpec::Id(id)) => ops.insert(id),
        _ => ops,
    }
}

/// The numeric ids the instructions refer to.
pub open spec fn instrs_ids(is: Seq<InstrSpec>) -> Set<u32>
    decreases is.len(),
{
    if is.len() == 0 {
        Set::empty()
    } else {
        instrs_ids(is.drop_last()).union(instr_ids(is.last()))
    }
}

/// The instructions' views.
pub open spec fn views(v: Seq<Instruction>) -> Seq<InstrSpec> {
    v.map_values(|i: Instruction| i@)
}

/// How names are bound to ids: the id each name is bound to, the ids in
/// use and the next id to try for a new name.
pub struct Ids {
    pub named: spec_fn(Seq<char>) -> Option<u32>,
    pub used: Set<u32>,
    pub next: u32,
}

/// The assembler binds names as `st` says.
pub open spec fn agrees(a: Assembler, st: Ids) -> bool {
    &&& forall|n: Seq<char>| #[trigger] a.named(n) == (st.named)(n)
    &&& a.used() == st.used
    &&& a.next() == st.next
}

/// The id a reference resolves to, and the bindings after: a number stands
/// for itself, a bound name for its id, and a new name is bound to the
/// least unused id at or above the next one. `None` if no id is left for a
/// new name.
pub open spec fn resolve_ref(st: Ids, r: IdRefSpec) -> Option<(Ids, u32)> {
    match r {
        IdRefSpec::Id(id) => Some((st, id)),
        IdRefSpec::Name(n) => match (st.named)(n) {
            Some(id) => Some((st, id)),
            None => if has_free(st.used, st.next) {
                let id = first_free(st.used, st.next);
                Some(
                    (
                        Ids {
                            named: |m: Seq<char>|
                                if m == n {
                                    Some(id)
                                } else {
                                    (st.named)(m)
                                },
                            used: st.used.insert(id),
                            next: (id + 1) as u32,
                        },
                        id,
                    ),
                )
            } else {
                None
            },
        },
    }
}

/// The operands with their references resolved in order, and the bindings
/// after.
pub open spec fn resolve_operands(st: Ids, ops: Seq<OperandSpec>) -> Option<(Ids, Seq<OperandSpec>)>
    decreases ops.len(),
{
    if ops.len() == 0 {
        Some((st, Seq::empty()))
    } else {
        match resolve_operands(st, ops.drop_last()) {
            None => None,
            Some((s1, rs)) => match ops.last() {
                OperandSpec::IdRef(r) => match resolve_ref(s1, r) {
                    None => None,
                    Some((s2, id)) => Some((s2, rs.push(OperandSpec::IdRef(IdRefSpec::Id(id))))),
                },
                o => Some((s1, rs.push(o))),
            },
        }
    }
}

/// The instruction with its result id, then its operands, resolved.
pub open spec fn resolve_instr(st: Ids, i: InstrSpec) -> Option<(Ids, InstrSpec)> {
    let head = match i.result_id {
        None => Some((st, None::<IdRefSpec>)),
        Some(r) => match resolve_ref(st, r) {
            None => None,
            Some((s1, id)) => Some((s1, Some(IdRefSpec::Id(id)))),
        },
    };
    match head {
        None => None,
        Some((s1, rid)) => match resolve_operands(s1, i.operands) {
            None => None,
            Some((s2, ops)) => Some((s2, InstrSpec { result_id: rid, opcode: i.opcode, operands: ops })),
        },
    }
}

/// The instructions resolved in order.
pub open spec fn resolve_instrs(st: Ids, is: Seq<InstrSpec>) -> Option<(Ids, Seq<InstrSpec>)>
    decreases is.len(),
{
    if is.len() == 0 {
        Some((st, Seq::empty()))
    } else {
        match resolve_instrs(st, is.drop_last()) {
            None => None,
            Some((s1, ris)) => match resolve_instr(s1, is.last()) {
                None => None,
                Some((s2, ri)) => Some((s2, ris.push(ri))),
            },
        }
    }
}

/// A prefix of operands that resolve resolves too.
proof fn lemma_resolve_operands_prefix(st: Ids, ops: Seq<OperandSpec>, k: int)
    requires
        0 <= k <= ops.len(),
        resolve_operands(st, ops) is Some,
    ensures
        resolve_operands(st, ops.take(k)) is Some,
    decreases ops.len(),
{
    if k < ops.len() {
        assert(ops.drop_last().take(k) =~= ops.take(k));
        lemma_resolve_operands_prefix(st, ops.drop_last(), k);
    } else {
        assert(ops.take(k) =~= ops);
    }
}

/// A prefix of instructions that resolve resolves too.
proof fn lemma_resolve_instrs_prefix(st: Ids, is: Seq<InstrSpec>, k: int)
    requires
        0 <= k <= is.len(),
        resolve_instrs(st, is) is Some,
    ensures
        resolve_instrs(st, is.take(k)) is Some,
    decreases is.len(),
{
    if k < is.len() {
        assert(is.drop_last().take(k) =~= is.take(k));
        lemma_resolve_instrs_prefix(st, is.drop_last(), k);
    } else {
        assert(is.take(k) =~= is);
    }
}

/// A copy of an operand.
fn copy_operand(o: &Operand) -> (r: Operand)
    ensures
        r@ == o@,
{
    match o {
        Operand::IdRef(IdRef::Id(id)) => Operand::IdRef(IdRef::Id(*id)),
        Operand::IdRef(IdRef::Name(n)) => Operand::IdRef(IdRef::Name(n.clone())),
        Operand::Literal(Lit::Int(i)) => Operand::Literal(Lit::Int(*i)),
        Operand::Literal(Lit::Float(m, e)) => Operand::Literal(Lit::Float(m.clone(), *e)),
        Operand::Literal(Lit::String(s)) => Operand::Literal(Lit::String(s.clone())),
        Operand::Ident(s) => Operand::Ident(s.clone()),
    }
}

impl Assembler {
    /// Mark the ids an instruction refers to as in use.
    fn mark_instr_ids(&mut self, instr: &Instruction)
        requires
            old(self).wf(),
        ensures
            final(self).wf(),
            final(self).used() == old(self).used().union(instr_ids(instr@)),
            final(self).next() == old(self).next(),
            forall|n: Seq<char>| final(self).named(n) == old(self).named(n),
            enc_state(*final(self)) == enc_state(*old(self)),
    {
        let ghost ops = instr@.operands;
        let mut j: usize = 0;
        assert(ops.take(0) =~= Seq::<OperandSpec>::empty());
        assert(old(self).used().union(Set::<u32>::empty()) =~= old(self).used());
        while j < instr.operands.len()
            invariant
                self.wf(),
                ops == instr@.operands,
                ops.len() == instr.operands@.len(),
                j <= ops.len(),
                self.used() == old(self).used().union(operand_ids(ops.take(j as int))),
                self.next() == old(self).next(),
                forall|n: Seq<char>| self.named(n) == old(self).named(n),
                enc_state(*self) == enc_state(*old(self)),
            decreases ops.len() - j,
        {
            proof {
                assert(ops.take(j + 1).drop_last() =~= ops.take(j as int));
                assert(ops.take(j + 1).last() == ops[j as int]);
                assert(ops[j as int] == instr.operands@[j as int]@);
            }
            match &instr.operands[j] {
                Operand::IdRef(IdRef::Id(id)) => {
                    self.mark_id(*id);
                    assert(self.used() =~= old(self).used().union(operand_ids(ops.take(j + 1))));
                },
                _ => {},
            }
            j = j + 1;
        }
        assert(ops.take(j as int) =~= ops);
        match &instr.result_id {
            Some(IdRef::Id(id)) => {
                self.mark_id(*id);
            },
            _ => {},
        }
        assert(self.used() =~= old(self).used().union(instr_ids(instr@)));
    }

    /// Mark the ids the instructions refer to as in use.
    fn mark_all_ids(&mut self, instrs: &Vec<Instruction>)
        requires
            old(self).wf(),
        ensures
            final(self).wf(),
            final(self).used() == old(self).used().union(instrs_ids(views(instrs@))),
            final(self).next() == old(self).next(),
            forall|n: Seq<char>| final(self).named(n) == old(self).named(n),
            enc_state(*final(self)) == enc_state(*old(self)),
    {
        let ghost is = views(instrs@);
        let mut k: usize = 0;
        assert(is.take(0) =~= Seq::<InstrSpec>::empty());
        assert(old(self).used().union(Set::<u32>::empty()) =~= old(self).used());
        while k < instrs.len()
            invariant
                self.wf(),
                is == views(instrs@),
                k <= is.len(),
                self.used() == old(self).used().union(instrs_ids(is.take(k as int))),
                self.next() == old(self).next(),
                forall|n: Seq<char>| self.named(n) == old(self).named(n),
                enc_state(*self) == enc_state(*old(self)),
            decreases is.len() - k,
        {
            proof {
                assert(is.take(k + 1).drop_last() =~= is.take(k as int));
                assert(is.take(k + 1).last() == instrs@[k as int]@);
            }
            self.mark_instr_ids(&instrs[k]);
            assert(self.used() =~= old(self).used().union(instrs_ids(is.take(k + 1))));
            k = k + 1;
        }
        assert(is.take(k as int) =~= is);
    }

    /// An instruction with its references resolved as `resolve_instr` says.
    fn resolve_one(&mut self, instr: &Instruction, Ghost(st): Ghost<Ids>) -> (r: Instruction)
        requires
            old(self).wf(),
            agrees(*old(self), st),
            resolve_instr(st, instr@) is Some,
        ensures
            final(self).wf(),
            resolve_instr(st, instr@) matches Some((st2, ri)) && agrees(*final(self), st2) && r@
                == ri,
            enc_state(*final(self)) == enc_state(*old(self)),
    {
        let ghost mut cur = st;
        let result_id = match &instr.result_id {
            Some(r) => {
                let id = match self.process_idref(r) {
                    Ok(IdRef::Id(id)) => id,
                    _ => 0,
                };
                proof {
                    cur = (resolve_ref(st, r@)->0).0;
                }
                Some(IdRef::Id(id))
            },
            None => None,
        };
        let ghost ops = instr@.operands;
        let ghost s1 = cur;
        proof {
            assert(resolve_operands(s1, ops) is Some);
            assert(ops.take(0) =~= Seq::<OperandSpec>::empty());
        }
        let mut out: Vec<Operand> = Vec::new();
        let mut j: usize = 0;
        while j < instr.operands.len()
            invariant
                self.wf(),
                ops == instr@.operands,
                ops.len() == instr.operands@.len(),
                j <= ops.len(),
                out@.len() == j,
                resolve_operands(s1, ops) is Some,
                resolve_operands(s1, ops.take(j as int)) == Some((cur, out@.map_values(|o: Operand| o@))),
                agrees(*self, cur),
                enc_state(*self) == enc_state(*old(self)),
            decreases ops.len() - j,
        {
            proof {
                assert(ops.take(j + 1).drop_last() =~= ops.take(j as int));
                assert(ops.take(j + 1).last() == ops[j as int]);
                assert(ops[j as int] == instr.operands@[j as int]@);
                lemma_resolve_operands_prefix(s1, ops, j + 1);
            }
            let ghost prev = out@.map_values(|o: Operand| o@);
            match &instr.operands[j] {
                Operand::IdRef(r) => {
                    let id = match self.process_idref(r) {
                        Ok(IdRef::Id(id)) => id,
                        _ => 0,
                    };
                    proof {
                        cur = (resolve_ref(cur, r@)->0).0;
                    }
                    out.push(Operand::IdRef(IdRef::Id(id)));
                },
                o => {
                    out.push(copy_operand(o));
                },
            }
            assert(out@.map_values(|o: Operand| o@) =~= prev.push(out@[j as int]@));
            j = j + 1;
        }
        assert(ops.take(j as int) =~= ops);
        Instruction { result_id, opcode: instr.opcode, operands: out }
    }

    /// The instructions with their references resolved in order.
    fn resolve_all(&mut self, instrs: &Vec<Instruction>, Ghost(st): Ghost<Ids>) -> (r: Vec<Instruction>)
        requires
            old(self).wf(),
            agrees(*old(self), st),
            resolve_instrs(st, views(instrs@)) is Some,
        ensures
            final(self).wf(),
            resolve_instrs(st, views(instrs@)) matches Some((st2, ris)) && agrees(*final(self), st2)
                && views(r@) == ris,
            enc_state(*final(self)) == enc_state(*old(self)),
    {
        let ghost is = views(instrs@);
        let ghost mut cur = st;
        let mut out: Vec<Instruction> = Vec::new();
        let mut k: usize = 0;
        assert(is.take(0) =~= Seq::<InstrSpec>::empty());
        assert(views(out@) =~= Seq::<InstrSpec>::empty());
        while k < instrs.len()
            invariant
                self.wf(),
                is == views(instrs@),
                k <= is.len(),
                out@.len() == k,
                resolve_instrs(st, is) is Some,
                resolve_instrs(st, is.take(k as int)) == Some((cur, views(out@))),
                agrees(*self, cur),
                enc_state(*self) == enc_state(*old(self)),
            decreases is.len() - k,
        {
            proof {
                assert(is.take(k + 1).drop_last() =~= is.take(k as int));
                assert(is.take(k + 1).last() == instrs@[k as int]@);
                lemma_resolve_instrs_prefix(st, is, k + 1);
            }
            let ghost prev = views(out@);
            let ri = self.resolve_one(&instrs[k], Ghost(cur));
            proof {
                cur = (resolve_instr(cur, instrs@[k as int]@)->0).0;
            }
            out.push(ri);
            assert(views(out@) =~= prev.push(out@[k as int]@));
            k = k + 1;
        }
        assert(is.take(k as int) =~= is);
        out
    }
}

/// Every bound name has an id in use, and distinct names have distinct ids.
pub open spec fn ids_consistent(st: Ids) -> bool {
    &&& forall|n: Seq<char>| #[trigger] (st.named)(n) is Some ==> st.used.contains((st.named)(n)->0)
    &&& forall|n1: Seq<char>, n2: Seq<char>|
        n1 != n2 && #[trigger] (st.named)(n1) is Some && #[trigger] (st.named)(n2) is Some ==> (
        st.named)(n1) != (st.named)(n2)
}

/// `st2` follows from `st`: ids in use stay in use, the next id to try does
/// not go down, bound names keep their ids, and a name bound since gets an id
/// that was not in use, at or above the next id to try.
pub open spec fn extends(st: Ids, st2: Ids) -> bool {
    &&& st.used.subset_of(st2.used)
    &&& st.next <= st2.next
    &&& forall|n: Seq<char>| #[trigger] (st.named)(n) is Some ==> (st2.named)(n) == (st.named)(n)
    &&& forall|n: Seq<char>|
        (st.named)(n) is None && #[trigger] (st2.named)(n) is Some ==> !st.used.contains(
            (st2.named)(n)->0,
        ) && (st2.named)(n)->0 >= st.next
}

proof fn lemma_extends_trans(a: Ids, b: Ids, c: Ids)
    requires
        extends(a, b),
        extends(b, c),
    ensures
        extends(a, c),
{
    assert forall|n: Seq<char>| (a.named)(n) is None && #[trigger] (c.named)(n) is Some implies !a.used.contains(
        (c.named)(n)->0,
    ) by {
        if (b.named)(n) is Some {
            assert((c.named)(n) == (b.named)(n));
        }
    }
}

proof fn lemma_resolve_ref(st: Ids, r: IdRefSpec)
    requires
        ids_consistent(st),
        resolve_ref(st, r) is Some,
    ensures
        resolve_ref(st, r) matches Some((st2, _)) && extends(st, st2) && ids_consistent(st2),
{
    if let IdRefSpec::Name(n) = r {
        if (st.named)(n) is None {
            let (st2, id) = resolve_ref(st, r)->0;
            lemma_first_free(st.used, st.next);
            assert forall|n1: Seq<char>, n2: Seq<char>|
                n1 != n2 && #[trigger] (st2.named)(n1) is Some && #[trigger] (st2.named)(n2)
                    is Some implies (st2.named)(n1) != (st2.named)(n2) by {
                if n1 == n {
                    assert(st.used.contains((st.named)(n2)->0));
                } else if n2 == n {
                    assert(st.used.contains((st.named)(n1)->0));
                } else {
                    assert((st.named)(n1) is Some && (st.named)(n2) is Some);
                }
            }
            assert forall|m: Seq<char>| #[trigger] (st2.named)(m) is Some implies st2.used.contains(
                (st2.named)(m)->0,
            ) by {
                if m != n {
                    assert((st.named)(m) is Some);
                }
            }
        }
    }
}

proof fn lemma_resolve_operands(st: Ids, ops: Seq<OperandSpec>)
    requires
        ids_consistent(st),
        resolve_operands(st, ops) is Some,
    ensures
        resolve_operands(st, ops) matches Some((st2, _)) && extends(st, st2) && ids_consistent(st2),
    decreases ops.len(),
{
    if ops.len() > 0 {
        lemma_resolve_operands(st, ops.drop_last());
        let (s1, _) = resolve_operands(st, ops.drop_last())->0;
        if let OperandSpec::IdRef(r) = ops.last() {
            lemma_resolve_ref(s1, r);
            let (s2, _) = resolve_ref(s1, r)->0;
            lemma_extends_trans(st, s1, s2);
        }
    }
}

proof fn lemma_resolve_instr(st: Ids, i: InstrSpec)
    requires
        ids_consistent(st),
        resolve_instr(st, i) is Some,
    ensures
        resolve_instr(st, i) matches Some((st2, _)) && extends(st, st2) && ids_consistent(st2),
{
    let s1 = match i.result_id {
        None => st,
        Some(r) => {
            lemma_resolve_ref(st, r);
            (resolve_ref(st, r)->0).0
        },
    };
    lemma_resolve_operands(s1, i.operands);
    let s2 = (resolve_operands(s1, i.operands)->0).0;
    lemma_extends_trans(st, s1, s2);
}

proof fn lemma_resolve_instrs(st: Ids, is: Seq<InstrSpec>)
    requires
        ids_consistent(st),
        resolve_instrs(st, is) is Some,
    ensures
        resolve_instrs(st, is) matches Some((st2, _)) && extends(st, st2) && ids_consistent(st2),
    decreases is.len(),
{
    if is.len() > 0 {
        lemma_resolve_instrs(st, is.drop_last());
        let (s1, _) = resolve_instrs(st, is.drop_last())->0;
        lemma_resolve_instr(s1, is.last());
        let (s2, _) = resolve_instr(s1, is.last())->0;
        lemma_extends_trans(st, s1, s2);
    }
}

/// Assembling binds each name of the text that was not bound before to an
/// id that no numeric id written in the text uses, that was not in use
/// before and that is at least the assembler's next id (1 for a new
/// assembler, so never 0); names bound before keep their ids, and no two
/// names share an id.
pub proof fn lemma_assembled_names(a: Assembler, is: Seq<InstrSpec>)
    requires
        a.wf(),
        resolve_instrs(marked_ids(a, is), is) is Some,
    ensures
        resolve_instrs(marked_ids(a, is), is) matches Some((st, _)) && {
            &&& forall|n: Seq<char>| #[trigger] a.named(n) is Some ==> (st.named)(n) == a.named(n)
            &&& forall|n: Seq<char>|
                a.named(n) is None && #[trigger] (st.named)(n) is Some ==> !instrs_ids(is).contains(
                    (st.named)(n)->0,
                ) && !a.used().contains((st.named)(n)->0) && (st.named)(n)->0 >= a.next()
            &&& forall|n1: Seq<char>, n2: Seq<char>|
                n1 != n2 && #[trigger] (st.named)(n1) is Some && #[trigger] (st.named)(n2) is Some
                    ==> (st.named)(n1) != (st.named)(n2)
        },
{
    a.lemma_named_ids();
    let st0 = marked_ids(a, is);
    assert forall|n: Seq<char>| #[trigger] (st0.named)(n) is Some implies st0.used.contains(
        (st0.named)(n)->0,
    ) by {
        assert(a.named(n) is Some);
    }
    assert forall|n1: Seq<char>, n2: Seq<char>|
        n1 != n2 && #[trigger] (st0.named)(n1) is Some && #[trigger] (st0.named)(n2)
            is Some implies (st0.named)(n1) != (st0.named)(n2) by {
        assert(a.named(n1) is Some && a.named(n2) is Some);
    }
    lemma_resolve_instrs(st0, is);
    let st = (resolve_instrs(st0, is)->0).0;
    assert forall|n: Seq<char>| #[trigger] a.named(n) is Some implies (st.named)(n) == a.named(n) by {
        assert((st0.named)(n) is Some);
    }
    assert forall|n: Seq<char>|
        a.named(n) is None && #[trigger] (st.named)(n) is Some implies !instrs_ids(is).contains(
            (st.named)(n)->0,
        ) && !a.used().contains((st.named)(n)->0) && (st.named)(n)->0 >= a.next() by {
        assert((st0.named)(n) is None);
    }
}

/// The larger of two numbers.
pub open spec fn max_int(a: int, b: int) -> int {
    if a < b {
        b
    } else {
        a
    }
}

/// One past the largest numeric id the operands refer to; 0 if none.
pub open spec fn operands_bound(ops: Seq<OperandSpec>) -> int
    decreases ops.len(),
{
    if ops.len() == 0 {
        0
    } else {
        match ops.last() {
            OperandSpec::IdRef(IdRefSpec::Id(id)) => max_int(operands_bound(ops.drop_last()), id + 1),
            _ => operands_bound(ops.drop_last()),
        }
    }
}

/// One past the largest numeric id an instruction refers to (its result id
/// and its id operands); 0 if none.
pub open spec fn instr_bound(i: InstrSpec) -> int {
    match i.result_id {
        Some(IdRefSpec::Id(id)) => max_int(operands_bound(i.operands), id + 1),
        _ => operands_bound(i.operands),
    }
}

/// One past the largest numeric id the instructions refer to; 0 if none.
pub open spec fn instrs_bound(is: Seq<InstrSpec>) -> int
    decreases is.len(),
{
    if is.len() == 0 {
        0
    } else {
        max_int(instrs_bound(is.drop_last()), instr_bound(is.last()))
    }
}

/// The encoding state of an assembler once its id bound is raised past
/// every id of the resolved instructions `ris`.
pub open spec fn bounded_state(a: Assembler, ris: Seq<InstrSpec>) -> EncState {
    EncState { scalars: a.scalars(), bound: max_int(a.spec_bound() as int, instrs_bound(ris)) as u32 }
}

proof fn lemma_operands_bound(ops: Seq<OperandSpec>)
    ensures
        operands_bound(ops) >= 0,
        forall|k: int|
            0 <= k < ops.len() ==> (#[trigger] ops[k] matches OperandSpec::IdRef(IdRefSpec::Id(id))
                ==> id + 1 <= operands_bound(ops)),
        forall|n: int| 0 <= n <= ops.len() ==> operands_bound(#[trigger] ops.take(n)) <= operands_bound(ops),
    decreases ops.len(),
{
    if ops.len() > 0 {
        lemma_operands_bound(ops.drop_last());
        assert forall|n: int| 0 <= n <= ops.len() implies operands_bound(#[trigger] ops.take(n))
            <= operands_bound(ops) by {
            if n < ops.len() {
                assert(ops.drop_last().take(n) =~= ops.take(n));
            } else {
                assert(ops.take(n) =~= ops);
            }
        }
        assert forall|k: int|
            0 <= k < ops.len() implies (#[trigger] ops[k] matches OperandSpec::IdRef(IdRefSpec::Id(id))
            ==> id + 1 <= operands_bound(ops)) by {
            if k < ops.len() - 1 {
                assert(ops.drop_last()[k] == ops[k]);
            }
        }
    }
}

proof fn lemma_instrs_bound(is: Seq<InstrSpec>)
    ensures
        instrs_bound(is) >= 0,
        forall|k: int| 0 <= k < is.len() ==> instr_bound(#[trigger] is[k]) <= instrs_bound(is),
        forall|n: int| 0 <= n <= is.len() ==> instrs_bound(#[trigger] is.take(n)) <= instrs_bound(is),
    decreases is.len(),
{
    if is.len() > 0 {
        lemma_instrs_bound(is.drop_last());
        lemma_operands_bound(is.last().operands);
        assert forall|n: int| 0 <= n <= is.len() implies instrs_bound(#[trigger] is.take(n))
            <= instrs_bound(is) by {
            if n < is.len() {
                assert(is.drop_last().take(n) =~= is.take(n));
            } else {
                assert(is.take(n) =~= is);
            }
        }
        assert forall|k: int| 0 <= k < is.len() implies instr_bound(#[trigger] is[k]) <= instrs_bound(is) by {
            if k < is.len() - 1 {
                assert(is.drop_last()[k] == is[k]);
            }
        }
    }
}

/// The operands' numeric ids lie below their bound, and the largest is
/// one below it.
proof fn lemma_operand_ids_bound(ops: Seq<OperandSpec>)
    ensures
        forall|id: u32| #[trigger] operand_ids(ops).contains(id) ==> id < operands_bound(ops),
        operands_bound(ops) > 0 ==> operand_ids(ops).contains((operands_bound(ops) - 1) as u32),
        operands_bound(ops) <= u32::MAX + 1,
    decreases ops.len(),
{
    if ops.len() > 0 {
        let prev = ops.drop_last();
        lemma_operand_ids_bound(prev);
        lemma_operands_bound(prev);
        assert forall|id: u32| #[trigger] operand_ids(ops).contains(id) implies id < operands_bound(
            ops,
        ) by {
            if operand_ids(prev).contains(id) {
            }
        }
    }
}

/// An instruction's numeric ids lie below its bound, and the largest is
/// one below it.
proof fn lemma_instr_ids_bound(i: InstrSpec)
    ensures
        forall|id: u32| #[trigger] instr_ids(i).contains(id) ==> id < instr_bound(i),
        instr_bound(i) > 0 ==> instr_ids(i).contains((instr_bound(i) - 1) as u32),
        instr_bound(i) <= u32::MAX + 1,
{
    lemma_operand_ids_bound(i.operands);
}

/// The instructions' numeric ids lie below their bound, and the largest is
/// one below it.
proof fn lemma_instrs_ids_bound(is: Seq<InstrSpec>)
    ensures
        forall|id: u32| #[trigger] instrs_ids(is).contains(id) ==> id < instrs_bound(is),
        instrs_bound(is) > 0 ==> instrs_ids(is).contains((instrs_bound(is) - 1) as u32),
        instrs_bound(is) <= u32::MAX + 1,
    decreases is.len(),
{
    if is.len() > 0 {
        let prev = is.drop_last();
        lemma_instrs_ids_bound(prev);
        lemma_instr_ids_bound(is.last());
        lemma_instrs_bound(prev);
        lemma_operands_bound(is.last().operands);
        assert forall|id: u32| #[trigger] instrs_ids(is).contains(id) implies id < instrs_bound(is) by {
            if instrs_ids(prev).contains(id) {
            } else {
                assert(instr_ids(is.last()).contains(id));
            }
        }
    }
}

/// What a new assembler makes of the ids of a text: the id bound it writes
/// is one past the largest numeric id of the encoded instructions (every id
/// they hold lies below it), and each name of the text gets an id of its
/// own that is not 0 and that no numeric id written in the text uses.
pub proof fn lemma_fresh_assembly_ids(a: Assembler, is: Seq<InstrSpec>)
    requires
        a.wf(),
        forall|n: Seq<char>| #[trigger] a.named(n) is None,
        a.used() == Set::<u32>::empty(),
        a.next() == 1,
        a.spec_bound() == 0,
        resolve_instrs(marked_ids(a, is), is) is Some,
    ensures
        resolve_instrs(marked_ids(a, is), is) matches Some((st, ris)) && {
            &&& instrs_bound(ris) <= u32::MAX ==> bounded_state(a, ris).bound == instrs_bound(ris)
            &&& forall|id: u32| #[trigger] instrs_ids(ris).contains(id) ==> id < instrs_bound(ris)
            &&& instrs_bound(ris) > 0 ==> instrs_ids(ris).contains((instrs_bound(ris) - 1) as u32)
            &&& forall|n: Seq<char>|
                #[trigger] (st.named)(n) is Some ==> (st.named)(n)->0 != 0 && !instrs_ids(
                    is,
                ).contains((st.named)(n)->0)
            &&& forall|n1: Seq<char>, n2: Seq<char>|
                n1 != n2 && #[trigger] (st.named)(n1) is Some && #[trigger] (st.named)(n2) is Some
                    ==> (st.named)(n1) != (st.named)(n2)
        },
{
    lemma_assembled_names(a, is);
    let (st, ris) = resolve_instrs(marked_ids(a, is), is)->0;
    lemma_instrs_ids_bound(ris);
    lemma_instrs_bound(ris);
    assert forall|n: Seq<char>| #[trigger] (st.named)(n) is Some implies (st.named)(n)->0 != 0
        && !instrs_ids(is).contains((st.named)(n)->0) by {
        assert(a.named(n) is None);
    }
}

/// Encoding leaves an id bound that already lies past every id of the
/// instructions as it is.
proof fn lemma_step_keeps_bound<G: Fn(&Lit) -> i64>(st: EncState, is: Seq<InstrSpec>, isa: InstructionSet, g: G)
    requires
        st.bound >= instrs_bound(is),
    ensures
        instrs_step(st, is, isa, g).0.bound == st.bound,
    decreases is.len(),
{
    if is.len() > 0 {
        lemma_instrs_bound(is);
        lemma_step_keeps_bound(st, is.drop_last(), isa, g);
        let i = is.last();
        lemma_operands_bound(i.operands);
        assert(instr_bound(i) >= operands_bound(i.operands));
    }
}

/// The encoding state after encoding the instructions in order up to the
/// first error, and that error.
pub open spec fn instrs_step<G: Fn(&Lit) -> i64>(st: EncState, is: Seq<InstrSpec>, isa: InstructionSet, g: G) -> (
    EncState,
    Option<Error>,
)
    decreases is.len(),
{
    if is.len() == 0 {
        (st, None)
    } else {
        let (s1, e1) = instrs_step(st, is.drop_last(), isa, g);
        if e1 is Some {
            (s1, e1)
        } else {
            instr_step(s1, is.last(), isa, g)
        }
    }
}

/// `ws` is an encoding of the instructions, one after another.
pub open spec fn instrs_words<F: Fn(&Lit, u32) -> u64, G: Fn(&Lit) -> i64>(
    st: EncState,
    is: Seq<InstrSpec>,
    isa: InstructionSet,
    f: F,
    g: G,
    ws: Seq<u32>,
) -> bool
    decreases is.len(),
{
    if is.len() == 0 {
        ws.len() == 0
    } else {
        exists|k: int|
            #![trigger ws.take(k)]
            0 <= k <= ws.len() && instrs_words(st, is.drop_last(), isa, f, g, ws.take(k)) && instr_words(
                instrs_step(st, is.drop_last(), isa, g).0,
                is.last(),
                isa,
                f, g,
                ws.skip(k),
            )
    }
}

/// Encoding the instructions reaches none that cannot be encoded.
pub open spec fn instrs_encodable<G: Fn(&Lit) -> i64>(
    st: EncState,
    is: Seq<InstrSpec>,
    isa: InstructionSet,
    g: G,
) -> bool {
    forall|k: int|
        0 <= k < is.len() && instrs_step(st, is.take(k), isa, g).1 is None && !is_special(
            #[trigger] is[k].opcode,
        ) ==> general_encodable(is[k], Some(is[k].opcode), isa)
}

/// The bindings of an assembler once the ids the instructions refer to are
/// marked in use.
pub open spec fn marked_ids(a: Assembler, is: Seq<InstrSpec>) -> Ids {
    Ids { named: |n: Seq<char>| a.named(n), used: a.used().union(instrs_ids(is)), next: a.next() }
}

/// Assembling the instructions can go through: every new name finds an id,
/// and encoding reaches no instruction that cannot be encoded.
pub open spec fn assemblable<G: Fn(&Lit) -> i64>(a: Assembler, is: Seq<InstrSpec>, isa: InstructionSet, g: G) -> bool {
    match resolve_instrs(marked_ids(a, is), is) {
        None => false,
        Some((_, ris)) => instrs_bound(ris) <= u32::MAX && instrs_encodable(
            bounded_state(a, ris),
            ris,
            isa, g,
        ),
    }
}

/// An error in encoding the first `n` instructions is where encoding all of
/// them stops.
proof fn lemma_step_prefix<G: Fn(&Lit) -> i64>(st: EncState, is: Seq<InstrSpec>, n: int, isa: InstructionSet, g: G)
    requires
        0 <= n <= is.len(),
        instrs_step(st, is.take(n), isa, g).1 is Some,
    ensures
        instrs_step(st, is, isa, g) == instrs_step(st, is.take(n), isa, g),
    decreases is.len(),
{
    if n < is.len() {
        assert(is.drop_last().take(n) =~= is.take(n));
        lemma_step_prefix(st, is.drop_last(), n, isa, g);
    } else {
        assert(is.take(n) =~= is);
    }
}

impl Assembler {
    /// Encode `OpTypeInt`, `OpTypeFloat` or `OpConstant`; `None` for any
    /// other instruction, which is left unchanged.
    pub fn assemble_special_instr<F: Fn(&Lit, u32) -> u64, G: Fn(&Lit) -> i64>(
        &mut self,
        instr: &Instruction,
        isa: &InstructionSet,
        float_bits: &F,
        float_int: &G,
    ) -> (r: Result<Option<Vec<u32>>, Error>)
        requires
            forall|l: &Lit, w: u32| float_bits.requires((l, w)),
            converts_floats(*float_int),
        ensures
            !is_special(instr.opcode) ==> r == Ok::<Option<Vec<u32>>, Error>(None) && *final(self)
                == *old(self),
            is_special(instr.opcode) ==> {
                let (es, err) = instr_step(enc_state(*old(self)), instr@, *isa, *float_int);
                &&& enc_state(*final(self)) == es
                &&& match err {
                    Some(e) => r == Err::<Option<Vec<u32>>, Error>(e),
                    None => r matches Ok(Some(ws)) && instr_words(
                        enc_state(*old(self)),
                        instr@,
                        *isa,
                        *float_bits, *float_int,
                        ws@,
                    ),
                }
            },
            final(self).used() == old(self).used(),
            final(self).next() == old(self).next(),
            forall|n: Seq<char>| final(self).named(n) == old(self).named(n),
            old(self).wf() ==> final(self).wf(),
    {
        if instr.opcode == OP_TYPE_INT {
            Ok(Some(self.assemble_op_type_int(instr)?))
        } else if instr.opcode == OP_TYPE_FLOAT {
            Ok(Some(self.assemble_op_type_float(instr)?))
        } else if instr.opcode == OP_CONSTANT {
            Ok(Some(self.assemble_op_constant(instr, float_bits, float_int)?))
        } else {
            Ok(None)
        }
    }

    /// Encode an instruction: in a form of its own where it has one, else
    /// as a general instruction.
    pub fn assemble_instr<F: Fn(&Lit, u32) -> u64, G: Fn(&Lit) -> i64>(
        &mut self,
        instr: &Instruction,
        isa: &InstructionSet,
        float_bits: &F,
        float_int: &G,
    ) -> (r: Result<Vec<u32>, Error>)
        requires
            forall|l: &Lit, w: u32| float_bits.requires((l, w)),
            converts_floats(*float_int),
            !is_special(instr.opcode) ==> general_encodable(instr@, Some(instr.opcode), *isa),
        ensures
            ({
                let (es, err) = instr_step(enc_state(*old(self)), instr@, *isa, *float_int);
                &&& enc_state(*final(self)) == es
                &&& match err {
                    Some(e) => r == Err::<Vec<u32>, Error>(e),
                    None => r matches Ok(ws) && instr_words(
                        enc_state(*old(self)),
                        instr@,
                        *isa,
                        *float_bits, *float_int,
                        ws@,
                    ),
                }
            }),
            final(self).used() == old(self).used(),
            final(self).next() == old(self).next(),
            forall|n: Seq<char>| final(self).named(n) == old(self).named(n),
            old(self).wf() ==> final(self).wf(),
    {
        if let Some(buf) = self.assemble_special_instr(instr, isa, float_bits, float_int)? {
            return Ok(buf);
        }
        self.assemble_general_instr(instr, isa, float_bits)
    }
}

impl Assembler {
    /// Raise the id bound past every id an instruction refers to.
    fn raise_to_instr_ids(&mut self, instr: &Instruction)
        requires
            instr_bound(instr@) <= u32::MAX,
        ensures
            final(self).spec_bound() as int == max_int(old(self).spec_bound() as int, instr_bound(instr@)),
            final(self).used() == old(self).used(),
            final(self).next() == old(self).next(),
            final(self).scalars() == old(self).scalars(),
            forall|n: Seq<char>| final(self).named(n) == old(self).named(n),
            old(self).wf() ==> final(self).wf(),
    {
        let ghost ops = instr@.operands;
        proof {
            lemma_operands_bound(ops);
            assert(ops.take(0) =~= Seq::<OperandSpec>::empty());
        }
        let mut j: usize = 0;
        while j < instr.operands.len()
            invariant
                ops == instr@.operands,
                ops.len() == instr.operands@.len(),
                j <= ops.len(),
                operands_bound(ops) <= u32::MAX,
                forall|k: int|
                    0 <= k < ops.len() ==> (#[trigger] ops[k] matches OperandSpec::IdRef(IdRefSpec::Id(id))
                        ==> id + 1 <= operands_bound(ops)),
                self.spec_bound() as int == max_int(
                    old(self).spec_bound() as int,
                    operands_bound(ops.take(j as int)),
                ),
                self.used() == old(self).used(),
                self.next() == old(self).next(),
                self.scalars() == old(self).scalars(),
                forall|n: Seq<char>| self.named(n) == old(self).named(n),
                old(self).wf() ==> self.wf(),
            decreases ops.len() - j,
        {
            proof {
                assert(ops.take(j + 1).drop_last() =~= ops.take(j as int));
                assert(ops.take(j + 1).last() == ops[j as int]);
                assert(ops[j as int] == instr.operands@[j as int]@);
            }
            match &instr.operands[j] {
                Operand::IdRef(IdRef::Id(id)) => {
                    self.raise_bound(*id + 1);
                },
                _ => {},
            }
            j = j + 1;
        }
        assert(ops.take(j as int) =~= ops);
        match &instr.result_id {
            Some(IdRef::Id(id)) => {
                self.raise_bound(*id + 1);
            },
            _ => {},
        }
    }

    /// Raise the id bound past every id the instructions refer to.
    fn raise_to_ids(&mut self, instrs: &Vec<Instruction>)
        requires
            instrs_bound(views(instrs@)) <= u32::MAX,
        ensures
            final(self).spec_bound() as int == max_int(
                old(self).spec_bound() as int,
                instrs_bound(views(instrs@)),
            ),
            final(self).used() == old(self).used(),
            final(self).next() == old(self).next(),
            final(self).scalars() == old(self).scalars(),
            forall|n: Seq<char>| final(self).named(n) == old(self).named(n),
            old(self).wf() ==> final(self).wf(),
    {
        let ghost is = views(instrs@);
        proof {
            lemma_instrs_bound(is);
            assert(is.take(0) =~= Seq::<InstrSpec>::empty());
        }
        let mut k: usize = 0;
        while k < instrs.len()
            invariant
                is == views(instrs@),
                k <= is.len(),
                instrs_bound(is) <= u32::MAX,
                forall|m: int| 0 <= m < is.len() ==> instr_bound(#[trigger] is[m]) <= instrs_bound(is),
                self.spec_bound() as int == max_int(
                    old(self).spec_bound() as int,
                    instrs_bound(is.take(k as int)),
                ),
                self.used() == old(self).used(),
                self.next() == old(self).next(),
                self.scalars() == old(self).scalars(),
                forall|n: Seq<char>| self.named(n) == old(self).named(n),
                old(self).wf() ==> self.wf(),
            decreases is.len() - k,
        {
            proof {
                assert(is.take(k + 1).drop_last() =~= is.take(k as int));
                assert(is.take(k + 1).last() == is[k as int]);
                assert(is[k as int] == instrs@[k as int]@);
            }
            self.raise_to_instr_ids(&instrs[k]);
            k = k + 1;
        }
        assert(is.take(k as int) =~= is);
    }
}

impl Assembler {
    /// Encode the instructions in order, stopping at the first error.
    fn encode_all<F: Fn(&Lit, u32) -> u64, G: Fn(&Lit) -> i64>(
        &mut self,
        instrs: &Vec<Instruction>,
        isa: &InstructionSet,
        float_bits: &F,
        float_int: &G,
    ) -> (r: Result<Vec<u32>, Error>)
        requires
            old(self).wf(),
            forall|l: &Lit, w: u32| float_bits.requires((l, w)),
            converts_floats(*float_int),
            instrs_encodable(enc_state(*old(self)), views(instrs@), *isa, *float_int),
        ensures
            final(self).wf(),
            ({
                let (es, err) = instrs_step(enc_state(*old(self)), views(instrs@), *isa, *float_int);
                &&& enc_state(*final(self)) == es
                &&& match err {
                    Some(e) => r == Err::<Vec<u32>, Error>(e),
                    None => r matches Ok(ws) && instrs_words(
                        enc_state(*old(self)),
                        views(instrs@),
                        *isa,
                        *float_bits, *float_int,
                        ws@,
                    ),
                }
            }),
            final(self).used() == old(self).used(),
            final(self).next() == old(self).next(),
            forall|n: Seq<char>| final(self).named(n) == old(self).named(n),
    {
        let ghost is = views(instrs@);
        let ghost st0 = enc_state(*old(self));
        let mut buf: Vec<u32> = Vec::new();
        let mut k: usize = 0;
        assert(is.take(0) =~= Seq::<InstrSpec>::empty());
        while k < instrs.len()
            invariant
                self.wf(),
                is == views(instrs@),
                st0 == enc_state(*old(self)),
                k <= is.len(),
                forall|l: &Lit, w: u32| float_bits.requires((l, w)),
            converts_floats(*float_int),
                instrs_encodable(st0, is, *isa, *float_int),
                instrs_step(st0, is.take(k as int), *isa, *float_int) == (enc_state(*self), None::<Error>),
                instrs_words(st0, is.take(k as int), *isa, *float_bits, *float_int, buf@),
                self.used() == old(self).used(),
                self.next() == old(self).next(),
                forall|n: Seq<char>| self.named(n) == old(self).named(n),
            decreases is.len() - k,
        {
            let ghost prev = buf@;
            let ghost before = enc_state(*self);
            proof {
                assert(is.take(k + 1).drop_last() =~= is.take(k as int));
                assert(is.take(k + 1).last() == is[k as int]);
                assert(is[k as int] == instrs@[k as int]@);
                assert(!is_special(is[k as int].opcode) ==> general_encodable(
                    is[k as int],
                    Some(is[k as int].opcode),
                    *isa,
                ));
            }
            let ws = match self.assemble_instr(&instrs[k], isa, float_bits, float_int) {
                Ok(ws) => ws,
                Err(e) => {
                    proof {
                        lemma_step_prefix(st0, is, k + 1, *isa, *float_int);
                    }
                    return Err(e);
                },
            };
            buf.extend_from_slice(ws.as_slice());
            proof {
                let all = is.take(k + 1);
                assert(buf@.take(prev.len() as int) =~= prev);
                assert(buf@.skip(prev.len() as int) =~= ws@);
                assert(instr_words(instrs_step(st0, all.drop_last(), *isa, *float_int).0, all.last(), *isa, *float_bits, *float_int, buf@.skip(prev.len() as int)));
                assert(instrs_words(st0, all, *isa, *float_bits, *float_int, buf@));
            }
            k = k + 1;
        }
        assert(is.take(k as int) =~= is);
        Ok(buf)
    }

    /// Assemble a module from instructions read from assembly text; see
    /// `assemble`.
    #[verifier::rlimit(80)]
    #[verifier::spinoff_prover]
    fn assemble_parsed<F: Fn(&Lit, u32) -> u64, G: Fn(&Lit) -> i64>(
        &mut self,
        instrs: &Vec<Instruction>,
        header: SpirvHeader,
        isa: &InstructionSet,
        float_bits: &F,
        float_int: &G,
    ) -> (r: Result<SpirvBinary, Error>)
        requires
            old(self).wf(),
            forall|l: &Lit, w: u32| float_bits.requires((l, w)),
            converts_floats(*float_int),
            assemblable(*old(self), views(instrs@), *isa, *float_int),
        ensures
            assembled(*old(self), *final(self), views(instrs@), header, *isa, *float_bits, *float_int, r),
    {
        let ghost is = views(instrs@);
        self.mark_all_ids(instrs);
        proof {
            assert(agrees(*self, marked_ids(*old(self), is)));
        }
        let resolved = self.resolve_all(instrs, Ghost(marked_ids(*old(self), is)));
        let ghost st = (resolve_instrs(marked_ids(*old(self), is), is)->0).0;
        let ghost ris = (resolve_instrs(marked_ids(*old(self), is), is)->0).1;
        assert(views(resolved@) == ris);
        self.raise_to_ids(&resolved);
        assert(enc_state(*self) == bounded_state(*old(self), ris));
        proof {
            lemma_step_keeps_bound(bounded_state(*old(self), ris), ris, *isa, *float_int);
        }
        let buf = self.encode_all(&resolved, isa, float_bits, float_int)?;
        let mut spv: Vec<u32> = Vec::new();
        spv.push(SPIRV_MAGIC);
        spv.push(header.version);
        spv.push(header.generator);
        spv.push(self.bound());
        spv.push(0);
        spv.extend_from_slice(buf.as_slice());
        proof {
            assert(spv@.take(5) =~= seq![
                SPIRV_MAGIC,
                header.version,
                header.generator,
                self.spec_bound(),
                0u32,
            ]);
            assert(spv@.skip(5) =~= buf@);
        }
        Ok(SpirvBinary::from(spv))
    }

    /// Assemble a module from assembly text: the text is read into
    /// instructions, the ids they refer to are marked in use, names are
    /// bound to ids in order (a new assembler gives names ids from 1), and
    /// the instructions are encoded in order after a header of the SPIR-V
    /// magic number, the given version and generator, the id bound (one past
    /// the largest id the instructions refer to, unless the assembler's
    /// bound is already larger) and a zero. Floating-point literals are
    /// encoded by `float_bits`, which gives the bits of a numeric literal
    /// as a float of the given width.
    pub fn assemble<F: Fn(&Lit, u32) -> u64, G: Fn(&Lit) -> i64>(
        &mut self,
        input: &str,
        header: SpirvHeader,
        isa: &InstructionSet,
        float_bits: &F,
        float_int: &G,
    ) -> (r: Result<SpirvBinary, Error>)
        requires
            old(self).wf(),
            forall|l: &Lit, w: u32| float_bits.requires((l, w)),
            converts_floats(*float_int),
            parsed(input@, *isa) matches Ok(is) ==> assemblable(*old(self), is, *isa, *float_int),
        ensures
            match parsed(input@, *isa) {
                Err(e) => r == Err::<SpirvBinary, Error>(e) && *final(self) == *old(self),
                Ok(is) => assembled(*old(self), *final(self), is, header, *isa, *float_bits, *float_int, r),
            },
    {
        let instrs = self.parse(input, isa)?;
        self.assemble_parsed(&instrs, header, isa, float_bits, float_int)
    }
}

/// What assembling instructions from the assembler `a` gives and leaves:
/// names are bound as `resolve_instrs` binds them after the ids the
/// instructions refer to are marked in use; the id bound is raised past
/// every id of the resolved instructions and encoding leaves it there; the
/// scalar types are as encoding leaves them; the result is the first error,
/// or the header words followed by the encoding of the instructions.
pub open spec fn assembled<F: Fn(&Lit, u32) -> u64, G: Fn(&Lit) -> i64>(
    a: Assembler,
    a2: Assembler,
    is: Seq<InstrSpec>,
    header: SpirvHeader,
    isa: InstructionSet,
    f: F,
    g: G,
    r: Result<SpirvBinary, Error>,
) -> bool {
    match resolve_instrs(marked_ids(a, is), is) {
        None => false,
        Some((st, ris)) => {
            let st0 = bounded_state(a, ris);
            let (es, err) = instrs_step(st0, ris, isa, g);
            &&& a2.wf()
            &&& agrees(a2, st)
            &&& enc_state(a2) == es
            &&& es.bound == st0.bound
            &&& match err {
                Some(e) => r == Err::<SpirvBinary, Error>(e),
                None => r matches Ok(bin) && bin@.len() >= 5 && bin@.take(5) == seq![
                    SPIRV_MAGIC,
                    header.version,
                    header.generator,
                    es.bound,
                    0u32,
                ] && instrs_words(st0, ris, isa, f, g, bin@.skip(5)),
            }
        },
    }
}
} // verus!
