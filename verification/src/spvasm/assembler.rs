//! Id bookkeeping of the SPIR-V assembler and the encoding of the
//! instructions whose operands depend on the types declared so far.
use vstd::prelude::*;

use std::collections::{HashMap, HashSet};

use crate::error::Error;
use crate::parse::instr::{built_words, InstructionBuilder};
use crate::spvasm::tokenizer::{digit_value, digits_value, is_digit, Lit, LitSpec};
use crate::ty::ScalarType;
use vstd::arithmetic::power2::{lemma2_to64, pow2};

verus! {

broadcast use vstd::std_specs::hash::group_hash_axioms;

/// Opcode of `OpTypeInt`.
pub const OP_TYPE_INT: u32 = 21;

/// Opcode of `OpTypeFloat`.
pub const OP_TYPE_FLOAT: u32 = 22;

/// Opcode of `OpConstant`.
pub const OP_CONSTANT: u32 = 43;

/// A reference to an id: by name, or by number.
#[derive(Debug, Clone, PartialEq, Eq, Hash)]
pub enum IdRef {
    Name(String),
    Id(u32),
}

/// An operand of an instruction in assembly.
#[derive(Debug, Clone)]
pub enum Operand {
    IdRef(IdRef),
    Literal(Lit),
    Ident(String),
}

/// An instruction in assembly: its result id, opcode and operands.
#[derive(Debug, Clone)]
pub struct Instruction {
    pub result_id: Option<IdRef>,
    pub opcode: u32,
    pub operands: Vec<Operand>,
}

/// What an id reference holds, with a name as characters.
pub enum IdRefSpec {
    Name(Seq<char>),
    Id(u32),
}

/// What an operand holds.
pub enum OperandSpec {
    IdRef(IdRefSpec),
    Literal(LitSpec),
    Ident(Seq<char>),
}

/// What an instruction holds.
pub struct InstrSpec {
    pub result_id: Option<IdRefSpec>,
    pub opcode: u32,
    pub operands: Seq<OperandSpec>,
}

impl View for IdRef {
    type V = IdRefSpec;

    open spec fn view(&self) -> IdRefSpec {
        match self {
            IdRef::Name(s) => IdRefSpec::Name(s@),
            IdRef::Id(id) => IdRefSpec::Id(*id),
        }
    }
}

impl View for Operand {
    type V = OperandSpec;

    open spec fn view(&self) -> OperandSpec {
        match self {
            Operand::IdRef(r) => OperandSpec::IdRef(r@),
            Operand::Literal(l) => OperandSpec::Literal(l@),
            Operand::Ident(s) => OperandSpec::Ident(s@),
        }
    }
}

/// The views of optional id references.
pub open spec fn opt_idref_view(r: Option<IdRef>) -> Option<IdRefSpec> {
    match r {
        Some(x) => Some(x@),
        None => None,
    }
}

impl View for Instruction {
    type V = InstrSpec;

    open spec fn view(&self) -> InstrSpec {
        InstrSpec {
            result_id: opt_idref_view(self.result_id),
            opcode: self.opcode,
            operands: self.operands@.map_values(|o: Operand| o@),
        }
    }
}

/// The largest value of a `u32`.
pub open spec fn u32_max() -> nat {
    0xffff_ffff
}

/// Every character is a decimal digit.
pub open spec fn all_digits(d: Seq<char>) -> bool {
    forall|i: int| 0 <= i < d.len() ==> is_digit(#[trigger] d[i])
}

/// The number that `s` writes as `u32::from_str` reads it: an optional `+`,
/// then at least one decimal digit, the value fitting a `u32`.
pub open spec fn parse_u32(s: Seq<char>) -> Option<u32> {
    let d = if s.len() > 0 && s[0] == '+' {
        s.drop_first()
    } else {
        s
    };
    if d.len() > 0 && all_digits(d) && digits_value(d, 10) <= u32_max() {
        Some(digits_value(d, 10) as u32)
    } else {
        None
    }
}

/// Digits keep their value from growing smaller as more are appended.
proof fn lemma_digits_grow(ds: Seq<char>, n: int)
    requires
        0 <= n <= ds.len(),
    ensures
        digits_value(ds.take(n), 10) <= digits_value(ds, 10),
    decreases ds.len(),
{
    if n < ds.len() {
        assert(ds.drop_last().take(n) =~= ds.take(n));
        lemma_digits_grow(ds.drop_last(), n);
    } else {
        assert(ds.take(n) =~= ds);
    }
}

/// `u32::from_str` on the characters `cs`.
fn parse_u32_chars(cs: &Vec<char>) -> (r: Option<u32>)
    ensures
        r == parse_u32(cs@),
{
    let start: usize = if cs.len() > 0 && cs[0] == '+' {
        1
    } else {
        0
    };
    let ghost d = cs@.skip(start as int);
    proof {
        if start == 1 {
            assert(d =~= cs@.drop_first());
        } else {
            assert(d =~= cs@);
        }
    }
    if start >= cs.len() {
        return None;
    }
    let mut v: u64 = 0;
    let mut i = start;
    while i < cs.len()
        invariant
            start <= i <= cs@.len(),
            d == cs@.skip(start as int),
            d == (if cs@.len() > 0 && cs@[0] == '+' {
                cs@.drop_first()
            } else {
                cs@
            }),
            forall|j: int| 0 <= j < i - start ==> is_digit(#[trigger] d[j]),
            v == digits_value(d.take(i - start), 10),
            v <= u32_max(),
        decreases cs@.len() - i,
    {
        let c = cs[i];
        assert(c == d[i - start]);
        if !(c >= '0' && c <= '9') {
            proof {
                let w = i - start;
                assert(!is_digit(d[w]));
                assert(!all_digits(d));
                let dd = if cs@.len() > 0 && cs@[0] == '+' {
                    cs@.drop_first()
                } else {
                    cs@
                };
                assert(dd == d);
            }
            return None;
        }
        let x = (c as u32 - '0' as u32) as u64;
        assert(x == digit_value(c));
        assert(d.take(i + 1 - start).drop_last() =~= d.take(i - start));
        assert(d.take(i + 1 - start).last() == c);
        v = v * 10 + x;
        if v > 0xffff_ffff {
            proof {
                lemma_digits_grow(d, i + 1 - start);
                assert(d.take(d.len() as int) =~= d);
            }
            return None;
        }
        i = i + 1;
    }
    assert(d.take(i - start) =~= d);
    Some(v as u32)
}

/// The words of an integer constant of the type `ty` with value `v`: one
/// word for widths up to 32 (the value's two's complement bits), two words,
/// low first, for 64; none if the value is out of the type's range or the type
/// is not an integer of those widths.
pub open spec fn int_constant_words(ty: ScalarType, v: int) -> Option<Seq<u32>> {
    match ty {
        ScalarType::Integer { bits: 8, is_signed: true } => if -128 <= v <= 127 {
            Some(seq![(v as i32) as u32])
        } else {
            None
        },
        ScalarType::Integer { bits: 16, is_signed: true } => if -32768 <= v <= 32767 {
            Some(seq![(v as i32) as u32])
        } else {
            None
        },
        ScalarType::Integer { bits: 32, is_signed: true } => if -0x8000_0000 <= v <= 0x7fff_ffff {
            Some(seq![(v as i32) as u32])
        } else {
            None
        },
        ScalarType::Integer { bits: 8, is_signed: false } => if 0 <= v <= 255 {
            Some(seq![v as u32])
        } else {
            None
        },
        ScalarType::Integer { bits: 16, is_signed: false } => if 0 <= v <= 65535 {
            Some(seq![v as u32])
        } else {
            None
        },
        ScalarType::Integer { bits: 32, is_signed: false } => if 0 <= v <= 0xffff_ffff {
            Some(seq![v as u32])
        } else {
            None
        },
        ScalarType::Integer { bits: 64, .. } => Some(
            seq![(v as u64) as u32, ((v as u64) >> 32u64) as u32],
        ),
        _ => None,
    }
}

/// The range of an integer type of `bits` bits: `0 ..= 2^bits - 1` unsigned,
/// `-2^(bits-1) ..= 2^(bits-1) - 1` signed.
pub open spec fn in_int_range(bits: u32, is_signed: bool, v: int) -> bool {
    if is_signed {
        -pow2((bits - 1) as nat) <= v < pow2((bits - 1) as nat)
    } else {
        0 <= v < pow2(bits as nat)
    }
}

/// An integer constant of 8, 16 or 32 bits is encoded exactly when its value
/// lies in the range of its type, and then as the one word that holds the
/// value in two's complement (the value itself, or the value plus `2^32`
/// when negative).
pub proof fn lemma_int_constant_narrow(bits: u32, is_signed: bool, v: int)
    requires
        bits == 8 || bits == 16 || bits == 32,
    ensures
        int_constant_words(ScalarType::Integer { bits, is_signed }, v) is Some <==> in_int_range(
            bits,
            is_signed,
            v,
        ),
        int_constant_words(ScalarType::Integer { bits, is_signed }, v) matches Some(ws) ==> ws.len()
            == 1 && ws[0] == if v >= 0 {
            v
        } else {
            v + pow2(32)
        },
{
    lemma2_to64();
    if in_int_range(bits, is_signed, v) {
        if v >= 0 {
            assert(0 <= v < 0x1_0000_0000);
            if is_signed {
                let x = v as i32;
                assert(x == v);
                assert(x >= 0 ==> (x as u32) as int == x as int) by (bit_vector);
            }
        } else {
            let x = v as i32;
            assert(x == v);
            assert(x < 0 ==> (x as u32) as int == x as int + 0x1_0000_0000) by (bit_vector);
        }
    }
}

/// A 64-bit integer constant is encoded, for every value of `i64`, as two
/// words, low then high, that hold the value in two's complement.
pub proof fn lemma_int_constant_wide(is_signed: bool, v: i64)
    ensures
        int_constant_words(ScalarType::Integer { bits: 64, is_signed }, v as int) matches Some(ws)
            && ws.len() == 2 && ws[0] + ws[1] * pow2(32) == if v >= 0 {
            v as int
        } else {
            v + pow2(64)
        },
{
    lemma2_to64();
    let b = (v as int) as u64;
    assert(b == v as u64);
    assert((b as u32) as int + ((b >> 32u64) as u32) as int * 0x1_0000_0000 == b as int) by (bit_vector);
    assert(v >= 0 ==> (v as u64) as int == v as int) by (bit_vector);
    assert(v < 0 ==> (v as u64) as int == v as int + 0x1_0000_0000_0000_0000) by (bit_vector);
}

/// The words of an integer constant; see `int_constant_words`.
pub fn encode_int_constant(ty: ScalarType, v: i64) -> (r: Result<Vec<u32>, Error>)
    ensures
        match int_constant_words(ty, v as int) {
            Some(ws) => r matches Ok(x) && x@ == ws,
            None => r == Err::<Vec<u32>, Error>(Error::ConstantOutOfRange),
        },
{
    let mut out: Vec<u32> = Vec::new();
    match ty {
        ScalarType::Integer { bits: 8, is_signed: true } => {
            if v < -128 || v > 127 {
                return Err(Error::ConstantOutOfRange);
            }
            out.push((v as i32) as u32);
        },
        ScalarType::Integer { bits: 16, is_signed: true } => {
            if v < -32768 || v > 32767 {
                return Err(Error::ConstantOutOfRange);
            }
            out.push((v as i32) as u32);
        },
        ScalarType::Integer { bits: 32, is_signed: true } => {
            if v < -0x8000_0000 || v > 0x7fff_ffff {
                return Err(Error::ConstantOutOfRange);
            }
            out.push((v as i32) as u32);
        },
        ScalarType::Integer { bits: 8, is_signed: false } => {
            if v < 0 || v > 255 {
                return Err(Error::ConstantOutOfRange);
            }
            out.push(v as u32);
        },
        ScalarType::Integer { bits: 16, is_signed: false } => {
            if v < 0 || v > 65535 {
                return Err(Error::ConstantOutOfRange);
            }
            out.push(v as u32);
        },
        ScalarType::Integer { bits: 32, is_signed: false } => {
            if v < 0 || v > 0xffff_ffff {
                return Err(Error::ConstantOutOfRange);
            }
            out.push(v as u32);
        },
        ScalarType::Integer { bits: 64, .. } => {
            let b = v as u64;
            out.push(b as u32);
            out.push((b >> 32u64) as u32);
        },
        _ => return Err(Error::ConstantOutOfRange),
    }
    Ok(out)
}

/// The id a name is bound to, if any.
pub open spec fn bound_id(names: Seq<(String, u32)>, name: Seq<char>) -> Option<u32>
    decreases names.len(),
{
    if names.len() == 0 {
        None
    } else if names.last().0@ == name {
        Some(names.last().1)
    } else {
        bound_id(names.drop_last(), name)
    }
}

/// The least id at or above `from` that is not in `used`, if one fits a
/// `u32` with room for its successor.
pub open spec fn first_free(used: Set<u32>, from: u32) -> u32 {
    choose|id: u32|
        from <= id < u32::MAX && !used.contains(id) && forall|j: u32|
            from <= j < id ==> used.contains(j)
}

/// An id at or above `from` and below `u32::MAX` is unused.
pub open spec fn has_free(used: Set<u32>, from: u32) -> bool {
    exists|id: u32| from <= id < u32::MAX && !used.contains(id)
}

/// The least unused id at or above `from` is one: it is in range, unused,
/// and every id from `from` up to it is in use.
pub proof fn lemma_first_free(used: Set<u32>, from: u32)
    requires
        has_free(used, from),
    ensures
        from <= first_free(used, from) < u32::MAX,
        !used.contains(first_free(used, from)),
        forall|j: u32| from <= j < first_free(used, from) ==> used.contains(j),
{
    let w = choose|id: u32| from <= id < u32::MAX && !used.contains(id);
    lemma_least_free(used, from, from, w);
}

proof fn lemma_least_free(used: Set<u32>, from: u32, k: u32, w: u32)
    requires
        from <= k <= w < u32::MAX,
        !used.contains(w),
        forall|j: u32| from <= j < k ==> used.contains(j),
    ensures
        exists|id: u32|
            from <= id < u32::MAX && !used.contains(id) && forall|j: u32|
                from <= j < id ==> used.contains(j),
    decreases w - k,
{
    if !used.contains(k) {
        assert(from <= k < u32::MAX && !used.contains(k) && forall|j: u32| from <= j < k ==> used.contains(j));
    } else {
        lemma_least_free(used, from, (k + 1) as u32, w);
    }
}

/// SPIR-V assembler state: the ids that names are bound to, the ids in use,
/// the next id to try for a new name, the id bound and the scalar types
/// declared so far.
pub struct Assembler {
    name2id: Vec<(String, u32)>,
    used_ids: HashSet<u32>,
    next_id: u32,
    bound: u32,
    scalar_tys: HashMap<u32, ScalarType>,
}

impl Assembler {
    /// Every name is bound once, to an id in use, and no two names to the
    /// same id.
    pub closed spec fn wf(self) -> bool {
        &&& forall|i: int, j: int|
            0 <= i < j < self.name2id@.len() ==> self.name2id@[i].0@ != self.name2id@[j].0@
        &&& forall|i: int, j: int|
            0 <= i < j < self.name2id@.len() ==> self.name2id@[i].1 != self.name2id@[j].1
        &&& forall|i: int|
            0 <= i < self.name2id@.len() ==> self.used_ids@.contains(
                #[trigger] self.name2id@[i].1,
            )
    }

    /// The id bound to a name.
    pub closed spec fn named(self, name: Seq<char>) -> Option<u32> {
        bound_id(self.name2id@, name)
    }

    /// The ids in use.
    pub closed spec fn used(self) -> Set<u32> {
        self.used_ids@
    }

    /// The next id to try for a new name.
    pub closed spec fn next(self) -> u32 {
        self.next_id
    }

    /// The scalar types declared so far, by result id.
    pub closed spec fn scalars(self) -> Map<u32, ScalarType> {
        self.scalar_tys@
    }

    /// The id bound of the module.
    pub closed spec fn spec_bound(self) -> u32 {
        self.bound
    }

    /// A new assembler with no name, no id in use and no type; names are
    /// given ids from 1.
    pub fn new() -> (r: Self)
        ensures
            r.wf(),
            forall|n: Seq<char>| r.named(n) is None,
            r.used() == Set::<u32>::empty(),
            r.next() == 1,
            r.spec_bound() == 0,
            r.scalars() == Map::<u32, ScalarType>::empty(),
    {
        Assembler {
            name2id: Vec::new(),
            used_ids: HashSet::new(),
            next_id: 1,
            bound: 0,
            scalar_tys: HashMap::new(),
        }
    }

    /// A reference to an id: by number if the text is one that fits a
    /// `u32`, else by name.
    pub fn str2idref(&self, id: String) -> (r: IdRef)
        ensures
            match parse_u32(id@) {
                Some(n) => r == IdRef::Id(n),
                None => r matches IdRef::Name(s) && s@ == id@,
            },
    {
        let cs = crate::spvasm::tokenizer::chars_of(id.as_str());
        match parse_u32_chars(&cs) {
            Some(n) => IdRef::Id(n),
            None => IdRef::Name(id),
        }
    }

    /// Mark an id as in use.
    pub fn mark_id(&mut self, id: u32)
        requires
            old(self).wf(),
        ensures
            final(self).wf(),
            final(self).used() == old(self).used().insert(id),
            forall|n: Seq<char>| final(self).named(n) == old(self).named(n),
            final(self).next() == old(self).next(),
            final(self).scalars() == old(self).scalars(),
            final(self).spec_bound() == old(self).spec_bound(),
    {
        self.used_ids.insert(id);
    }

    /// The id bound to `name`, binding it first to the least unused id at or
    /// above the next id if it has none.
    pub fn acquire_id(&mut self, name: &str) -> (r: u32)
        requires
            old(self).wf(),
            old(self).named(name@) is None ==> has_free(old(self).used(), old(self).next()),
        ensures
            final(self).wf(),
            final(self).named(name@) == Some(r),
            old(self).named(name@) matches Some(id) ==> r == id && *final(self) == *old(self),
            old(self).named(name@) is None ==> {
                &&& r == first_free(old(self).used(), old(self).next())
                &&& !old(self).used().contains(r)
                &&& final(self).used() == old(self).used().insert(r)
                &&& final(self).next() == r + 1
                &&& forall|n: Seq<char>| n != name@ ==> final(self).named(n) == old(self).named(n)
                &&& final(self).scalars() == old(self).scalars()
                &&& final(self).spec_bound() == old(self).spec_bound()
            },
    {
        let owned = crate::text::owned(name);
        let mut k: usize = self.name2id.len();
        assert(self.name2id@.take(k as int) =~= self.name2id@);
        while k > 0
            invariant
                old(self).wf(),
                k <= self.name2id@.len(),
                self.name2id@ == old(self).name2id@,
                *self == *old(self),
                owned@ == name@,
                bound_id(self.name2id@, name@) == bound_id(self.name2id@.take(k as int), name@),
            decreases k,
        {
            assert(self.name2id@.take(k as int).drop_last() =~= self.name2id@.take(k - 1));
            if self.name2id[k - 1].0 == owned {
                return self.name2id[k - 1].1;
            }
            k = k - 1;
        }
        assert(self.name2id@.take(0) =~= Seq::<(String, u32)>::empty());
        let ghost from = self.next_id;
        let mut id = self.next_id;
        while self.used_ids.contains(&id)
            invariant
                *self == *old(self),
                from <= id,
                has_free(self.used_ids@, from),
                forall|j: u32| from <= j < id ==> self.used_ids@.contains(j),
                id < u32::MAX,
            decreases u32::MAX - id,
        {
            assert(id + 1 < u32::MAX) by {
                let w = choose|w: u32| from <= w < u32::MAX && !self.used_ids@.contains(w);
                assert(w > id);
            }
            id = id + 1;
        }
        proof {
            let f = first_free(self.used_ids@, from);
            assert(from <= id < u32::MAX && !self.used_ids@.contains(id) && forall|j: u32|
                from <= j < id ==> self.used_ids@.contains(j));
            assert(from <= f < u32::MAX && !self.used_ids@.contains(f) && forall|j: u32|
                from <= j < f ==> self.used_ids@.contains(j));
            assert(f == id) by {
                if f < id {
                    assert(self.used_ids@.contains(f));
                } else if f > id {
                    assert(self.used_ids@.contains(id));
                }
            }
        }
        self.next_id = id + 1;
        self.name2id.push((owned, id));
        self.used_ids.insert(id);
        proof {
            assert(self.name2id@.drop_last() =~= old(self).name2id@);
            assert forall|n: Seq<char>| n != name@ implies self.named(n) == old(self).named(n) by {}
            assert forall|i: int, j: int|
                0 <= i < j < self.name2id@.len() implies self.name2id@[i].0@
                != self.name2id@[j].0@ by {
                if j == self.name2id@.len() - 1 {
                    lemma_bound_none(old(self).name2id@, name@, i);
                }
            }
            assert forall|i: int| 0 <= i < self.name2id@.len() implies self.used_ids@.contains(
                #[trigger] self.name2id@[i].1,
            ) by {
                if i < old(self).name2id@.len() {
                    assert(old(self).used_ids@.contains(old(self).name2id@[i].1));
                }
            }
            assert forall|i: int, j: int|
                0 <= i < j < self.name2id@.len() implies self.name2id@[i].1
                != self.name2id@[j].1 by {
                if j == self.name2id@.len() - 1 {
                    assert(old(self).used_ids@.contains(old(self).name2id@[i].1));
                } else {
                    assert(old(self).name2id@[i].1 != old(self).name2id@[j].1);
                }
            }
        }
        id
    }

    /// The id bound of the module.
    pub fn bound(&self) -> (r: u32)
        ensures
            r == self.spec_bound(),
    {
        self.bound
    }

    /// Raise the id bound to at least `to`.
    pub(crate) fn raise_bound(&mut self, to: u32)
        ensures
            final(self).spec_bound() == if old(self).spec_bound() < to {
                to
            } else {
                old(self).spec_bound()
            },
            final(self).used() == old(self).used(),
            final(self).next() == old(self).next(),
            final(self).scalars() == old(self).scalars(),
            forall|n: Seq<char>| final(self).named(n) == old(self).named(n),
            old(self).wf() ==> final(self).wf(),
    {
        if self.bound < to {
            self.bound = to;
        }
    }

    /// A reference by number: names are bound to ids as `acquire_id` does.
    pub fn process_idref(&mut self, idref: &IdRef) -> (r: Result<IdRef, Error>)
        requires
            old(self).wf(),
            idref matches IdRef::Name(n) && old(self).named(n@) is None ==> has_free(
                old(self).used(),
                old(self).next(),
            ),
        ensures
            final(self).wf(),
            match *idref {
                IdRef::Id(id) => r == Ok::<IdRef, Error>(IdRef::Id(id)) && *final(self) == *old(self),
                IdRef::Name(n) => match old(self).named(n@) {
                    Some(id) => r == Ok::<IdRef, Error>(IdRef::Id(id)) && *final(self) == *old(self),
                    None => {
                        let id = first_free(old(self).used(), old(self).next());
                        &&& r == Ok::<IdRef, Error>(IdRef::Id(id))
                        &&& final(self).named(n@) == Some(id)
                        &&& final(self).used() == old(self).used().insert(id)
                        &&& final(self).next() == id + 1
                        &&& forall|m: Seq<char>| m != n@ ==> final(self).named(m) == old(self).named(m)
                        &&& final(self).scalars() == old(self).scalars()
                        &&& final(self).spec_bound() == old(self).spec_bound()
                    },
                },
            },
    {
        match idref {
            IdRef::Name(name) => {
                let id = self.acquire_id(name.as_str());
                Ok(IdRef::Id(id))
            },
            IdRef::Id(id) => Ok(IdRef::Id(*id)),
        }
    }
}

/// A name a list binds is bound by one of its entries.
proof fn lemma_bound_some(names: Seq<(String, u32)>, name: Seq<char>)
    ensures
        bound_id(names, name) matches Some(id) ==> exists|i: int|
            0 <= i < names.len() && #[trigger] names[i].0@ == name && names[i].1 == id,
    decreases names.len(),
{
    if names.len() > 0 && names.last().0@ != name {
        lemma_bound_some(names.drop_last(), name);
        if let Some(id) = bound_id(names, name) {
            let i = choose|i: int|
                0 <= i < names.drop_last().len() && #[trigger] names.drop_last()[i].0@ == name
                    && names.drop_last()[i].1 == id;
            assert(names[i] == names.drop_last()[i]);
        }
    } else if names.len() > 0 {
        assert(names[names.len() - 1].0@ == name);
    }
}

impl Assembler {
    /// In a well-formed assembler every bound name has an id in use, and
    /// distinct names have distinct ids.
    pub proof fn lemma_named_ids(self)
        requires
            self.wf(),
        ensures
            forall|n: Seq<char>| #[trigger] self.named(n) is Some ==> self.used().contains(self.named(n)->0),
            forall|n1: Seq<char>, n2: Seq<char>|
                n1 != n2 && #[trigger] self.named(n1) is Some && #[trigger] self.named(n2) is Some
                    ==> self.named(n1) != self.named(n2),
    {
        assert forall|n: Seq<char>| #[trigger] self.named(n) is Some implies self.used().contains(
            self.named(n)->0,
        ) by {
            lemma_bound_some(self.name2id@, n);
            let i = choose|i: int|
                0 <= i < self.name2id@.len() && #[trigger] self.name2id@[i].0@ == n
                    && self.name2id@[i].1 == self.named(n)->0;
            assert(self.used_ids@.contains(self.name2id@[i].1));
        }
        assert forall|n1: Seq<char>, n2: Seq<char>|
            n1 != n2 && #[trigger] self.named(n1) is Some && #[trigger] self.named(n2)
                is Some implies self.named(n1) != self.named(n2) by {
            lemma_bound_some(self.name2id@, n1);
            lemma_bound_some(self.name2id@, n2);
            let i = choose|i: int|
                0 <= i < self.name2id@.len() && #[trigger] self.name2id@[i].0@ == n1
                    && self.name2id@[i].1 == self.named(n1)->0;
            let j = choose|j: int|
                0 <= j < self.name2id@.len() && #[trigger] self.name2id@[j].0@ == n2
                    && self.name2id@[j].1 == self.named(n2)->0;
            if i < j {
                assert(self.name2id@[i].1 != self.name2id@[j].1);
            } else if j < i {
                assert(self.name2id@[j].1 != self.name2id@[i].1);
            }
        }
    }
}

/// An id bound nowhere in a list is bound by none of its entries.
proof fn lemma_bound_none(names: Seq<(String, u32)>, name: Seq<char>, i: int)
    requires
        bound_id(names, name) is None,
        0 <= i < names.len(),
    ensures
        names[i].0@ != name,
    decreases names.len(),
{
    if i < names.len() - 1 {
        assert(names.drop_last()[i] == names[i]);
        lemma_bound_none(names.drop_last(), name, i);
    }
}

/// The literal integer an operand holds, if it is one.
pub open spec fn lit_int(o: OperandSpec) -> Option<int> {
    match o {
        OperandSpec::Literal(LitSpec::Int(i)) => Some(i),
        _ => None,
    }
}

/// The numeric result id of an instruction, if it has one.
pub open spec fn numeric_result_id(instr: InstrSpec) -> Option<u32> {
    match instr.result_id {
        Some(IdRefSpec::Id(id)) => Some(id),
        _ => None,
    }
}

/// The checks of `OpTypeInt` and `OpTypeFloat` with `n` literal operands:
/// the count, each literal integer operand in turn (each taken as its low 32
/// bits), then a result id not declared before. Gives the result id and the
/// operands.
pub open spec fn scalar_decl(
    opcode: u32,
    instr: InstrSpec,
    n: nat,
    tys: Map<u32, ScalarType>,
) -> Result<(u32, Seq<u32>), Error> {
    let ops = instr.operands;
    if ops.len() != n {
        Err(Error::OperandCount(opcode))
    } else if lit_int(ops[0]) is None {
        Err(Error::ExpectedLiteralInteger(opcode, 0))
    } else if n == 2 && lit_int(ops[1]) is None {
        Err(Error::ExpectedLiteralInteger(opcode, 1))
    } else if numeric_result_id(instr) is None {
        Err(Error::ExpectedResultId(opcode))
    } else if tys.contains_key(numeric_result_id(instr)->0) {
        Err(Error::DuplicateResultId(numeric_result_id(instr)->0))
    } else {
        Ok(
            (
                numeric_result_id(instr)->0,
                if n == 2 {
                    seq![lit_int(ops[0])->0 as u32, lit_int(ops[1])->0 as u32]
                } else {
                    seq![lit_int(ops[0])->0 as u32]
                },
            ),
        )
    }
}

impl Assembler {
    /// Encode `OpTypeInt`, declaring an integer type of the given width and
    /// signedness under its result id.
    pub fn assemble_op_type_int(&mut self, instr: &Instruction) -> (r: Result<Vec<u32>, Error>)
        ensures
            match scalar_decl(OP_TYPE_INT, instr@, 2, old(self).scalars()) {
                Ok((id, lits)) => r matches Ok(ws) && ws@ == built_words(
                    seq![OP_TYPE_INT & 0xffffu32, id, lits[0], lits[1]],
                ) && final(self).scalars() == old(self).scalars().insert(
                    id,
                    ScalarType::Integer { bits: lits[0], is_signed: lits[1] != 0 },
                ),
                Err(e) => r == Err::<Vec<u32>, Error>(e) && final(self).scalars() == old(self).scalars(),
            },
            final(self).used() == old(self).used(),
            final(self).next() == old(self).next(),
            final(self).spec_bound() == old(self).spec_bound(),
            forall|n: Seq<char>| final(self).named(n) == old(self).named(n),
            old(self).wf() ==> final(self).wf(),
    {
        if instr.operands.len() != 2 {
            return Err(Error::OperandCount(OP_TYPE_INT));
        }
        let width = match &instr.operands[0] {
            Operand::Literal(Lit::Int(i)) => *i as u32,
            _ => return Err(Error::ExpectedLiteralInteger(OP_TYPE_INT, 0)),
        };
        let signedness = match &instr.operands[1] {
            Operand::Literal(Lit::Int(i)) => *i as u32,
            _ => return Err(Error::ExpectedLiteralInteger(OP_TYPE_INT, 1)),
        };
        let result_id = match &instr.result_id {
            Some(IdRef::Id(id)) => *id,
            _ => return Err(Error::ExpectedResultId(OP_TYPE_INT)),
        };
        if self.scalar_tys.contains_key(&result_id) {
            return Err(Error::DuplicateResultId(result_id));
        }
        self.scalar_tys.insert(result_id, ScalarType::Integer { bits: width, is_signed: signedness != 0 });
        let words = InstructionBuilder::new(OP_TYPE_INT).push(result_id).push(width).push(
            signedness,
        ).build().into_words();
        Ok(words)
    }

    /// Encode `OpTypeFloat`, declaring a floating-point type of the given
    /// width under its result id.
    pub fn assemble_op_type_float(&mut self, instr: &Instruction) -> (r: Result<Vec<u32>, Error>)
        ensures
            match scalar_decl(OP_TYPE_FLOAT, instr@, 1, old(self).scalars()) {
                Ok((id, lits)) => r matches Ok(ws) && ws@ == built_words(
                    seq![OP_TYPE_FLOAT & 0xffffu32, id, lits[0]],
                ) && final(self).scalars() == old(self).scalars().insert(
                    id,
                    ScalarType::Float { bits: lits[0] },
                ),
                Err(e) => r == Err::<Vec<u32>, Error>(e) && final(self).scalars() == old(self).scalars(),
            },
            final(self).used() == old(self).used(),
            final(self).next() == old(self).next(),
            final(self).spec_bound() == old(self).spec_bound(),
            forall|n: Seq<char>| final(self).named(n) == old(self).named(n),
            old(self).wf() ==> final(self).wf(),
    {
        if instr.operands.len() != 1 {
            return Err(Error::OperandCount(OP_TYPE_FLOAT));
        }
        let width = match &instr.operands[0] {
            Operand::Literal(Lit::Int(i)) => *i as u32,
            _ => return Err(Error::ExpectedLiteralInteger(OP_TYPE_FLOAT, 0)),
        };
        let result_id = match &instr.result_id {
            Some(IdRef::Id(id)) => *id,
            _ => return Err(Error::ExpectedResultId(OP_TYPE_FLOAT)),
        };
        if self.scalar_tys.contains_key(&result_id) {
            return Err(Error::DuplicateResultId(result_id));
        }
        self.scalar_tys.insert(result_id, ScalarType::Float { bits: width });
        let words = InstructionBuilder::new(OP_TYPE_FLOAT).push(result_id).push(width).build().into_words();
        Ok(words)
    }
}

/// An integer type that `OpConstant` encodes: 8, 16, 32 or 64 bits.
pub open spec fn int_constant_type(ty: ScalarType) -> bool {
    ty matches ScalarType::Integer { bits, .. } && (bits == 8 || bits == 16 || bits == 32 || bits
        == 64)
}

/// A floating-point type that `OpConstant` encodes: 16, 32 or 64 bits.
pub open spec fn float_constant_type(ty: ScalarType) -> bool {
    ty matches ScalarType::Float { bits } && (bits == 16 || bits == 32 || bits == 64)
}

/// What a float encoder may give for a literal at a width: `b` is one of
/// its results for a literal viewed as `lit`.
pub open spec fn float_bits_of<F: Fn(&Lit, u32) -> u64>(f: F, lit: LitSpec, width: u32, b: u64) -> bool {
    exists|l: Lit| l@ == lit && #[trigger] call_ensures(f, (&l, width), b)
}

/// A float converter the assembler can rely on: it takes every literal, and
/// literals that read the same give the same integer.
pub open spec fn converts_floats<G: Fn(&Lit) -> i64>(g: G) -> bool {
    &&& forall|l: &Lit| #[trigger] g.requires((l,))
    &&& forall|l1: Lit, l2: Lit, v1: i64, v2: i64|
        l1@ == l2@ && #[trigger] call_ensures(g, (&l1,), v1) && #[trigger] call_ensures(
            g,
            (&l2,),
            v2,
        ) ==> v1 == v2
}

/// The integer the float converter gives for a literal that reads `lit`.
pub open spec fn lit_int_of<G: Fn(&Lit) -> i64>(g: G, lit: LitSpec) -> i64 {
    let pick = choose|p: (i64, Lit)| p.1@ == lit && #[trigger] call_ensures(g, (&p.1,), p.0);
    pick.0
}

/// The words of a floating-point value of the given width from its bits:
/// one word below 64 bits, else the low word then the high word.
pub open spec fn float_words(b: u64, width: u32) -> Seq<u32> {
    if width == 64 {
        seq![b as u32, (b >> 32u64) as u32]
    } else {
        seq![b as u32]
    }
}

/// `ws` is `OpConstant` with the given result type id and result id and
/// the bits the float encoder gives for `lit` at the given width.
pub open spec fn float_constant_words<F: Fn(&Lit, u32) -> u64>(
    f: F,
    tid: u32,
    id: u32,
    lit: LitSpec,
    width: u32,
    ws: Seq<u32>,
) -> bool {
    exists|b: u64|
        float_bits_of(f, lit, width, b) && ws == built_words(
            seq![OP_CONSTANT & 0xffffu32, tid, id] + float_words(b, width),
        )
}

/// What `OpConstant` is encoded from once checked: its words after the
/// opcode, or its result type id and result id with a numeric literal to
/// encode as a float of the given width.
pub enum ConstantEncoding {
    Words(Seq<u32>),
    Float(u32, u32, LitSpec, u32),
}

/// How `OpConstant` is encoded, or why it cannot be: checked in the order
/// of its operand count, result type id, result id, declared type and
/// literal. An integer constant written with a floating-point literal takes
/// the integer that `g` converts the literal to.
pub open spec fn constant_decl<G: Fn(&Lit) -> i64>(
    instr: InstrSpec,
    tys: Map<u32, ScalarType>,
    g: G,
) -> Result<
    ConstantEncoding,
    Error,
> {
    let ops = instr.operands;
    if ops.len() != 2 {
        Err(Error::OperandCount(OP_CONSTANT))
    } else if !(ops[0] matches OperandSpec::IdRef(IdRefSpec::Id(_))) {
        Err(Error::ExpectedResultTypeId(OP_CONSTANT))
    } else if numeric_result_id(instr) is None {
        Err(Error::ExpectedResultId(OP_CONSTANT))
    } else {
        let tid = match ops[0] {
            OperandSpec::IdRef(IdRefSpec::Id(t)) => t,
            _ => 0,
        };
        let id = numeric_result_id(instr)->0;
        if !tys.contains_key(tid) {
            Err(Error::UnknownResultType(tid))
        } else if !(ops[1] matches OperandSpec::Literal(_)) {
            Err(Error::ExpectedLiteral(OP_CONSTANT))
        } else {
            let ty = tys[tid];
            match ops[1] {
                OperandSpec::Literal(lit) => if int_constant_type(ty) {
                    match lit {
                        LitSpec::Int(v) => match int_constant_words(ty, v) {
                            Some(ws) => Ok(ConstantEncoding::Words(seq![tid, id] + ws)),
                            None => Err(Error::ConstantOutOfRange),
                        },
                        LitSpec::Float(..) => match int_constant_words(ty, lit_int_of(g, lit) as int) {
                            Some(ws) => Ok(ConstantEncoding::Words(seq![tid, id] + ws)),
                            None => Err(Error::ConstantOutOfRange),
                        },
                        LitSpec::String(_) => Err(Error::ExpectedNumericLiteral),
                    }
                } else if float_constant_type(ty) {
                    match lit {
                        LitSpec::String(_) => Err(Error::ExpectedNumericLiteral),
                        _ => Ok(
                            ConstantEncoding::Float(
                                tid,
                                id,
                                lit,
                                match ty {
                                    ScalarType::Float { bits } => bits,
                                    _ => 0,
                                },
                            ),
                        ),
                    }
                } else {
                    Err(Error::UnsupportedConstantType)
                },
                _ => Err(Error::ExpectedLiteral(OP_CONSTANT)),
            }
        }
    }
}

impl Assembler {
    /// Encode `OpConstant` whose result type is a scalar type declared
    /// before; see `constant_decl`. A floating-point constant is encoded
    /// from the bits `float_bits` gives for its literal at the type's width;
    /// an integer constant written with a floating-point literal, from the
    /// integer `float_int` converts the literal to.
    pub fn assemble_op_constant<F: Fn(&Lit, u32) -> u64, G: Fn(&Lit) -> i64>(
        &mut self,
        instr: &Instruction,
        float_bits: &F,
        float_int: &G,
    ) -> (r: Result<Vec<u32>, Error>)
        requires
            forall|l: &Lit, w: u32| float_bits.requires((l, w)),
            converts_floats(*float_int),
        ensures
            match constant_decl(instr@, old(self).scalars(), *float_int) {
                Ok(ConstantEncoding::Words(ws)) => r matches Ok(x) && x@ == built_words(
                    seq![OP_CONSTANT & 0xffffu32] + ws,
                ),
                Ok(ConstantEncoding::Float(tid, id, lit, width)) => r matches Ok(x)
                    && float_constant_words(*float_bits, tid, id, lit, width, x@),
                Err(e) => r == Err::<Vec<u32>, Error>(e),
            },
            *final(self) == *old(self),
    {
        if instr.operands.len() != 2 {
            return Err(Error::OperandCount(OP_CONSTANT));
        }
        let result_type_id = match &instr.operands[0] {
            Operand::IdRef(IdRef::Id(id)) => *id,
            _ => return Err(Error::ExpectedResultTypeId(OP_CONSTANT)),
        };
        let result_id = match &instr.result_id {
            Some(IdRef::Id(id)) => *id,
            _ => return Err(Error::ExpectedResultId(OP_CONSTANT)),
        };
        let scalar_ty = match self.scalar_tys.get(&result_type_id) {
            Some(t) => *t,
            None => return Err(Error::UnknownResultType(result_type_id)),
        };
        let value = match &instr.operands[1] {
            Operand::Literal(lit) => lit,
            _ => return Err(Error::ExpectedLiteral(OP_CONSTANT)),
        };
        let ghost mut fb: u64 = 0;
        let words = match scalar_ty {
            ScalarType::Integer { bits, .. } => {
                if !(bits == 8 || bits == 16 || bits == 32 || bits == 64) {
                    return Err(Error::UnsupportedConstantType);
                }
                let v = match value {
                    Lit::Int(i) => *i,
                    Lit::Float(..) => {
                        let v = float_int(value);
                        proof {
                            let p0 = (v, *value);
                            assert(p0.1@ == value@ && call_ensures(*float_int, (&p0.1,), p0.0));
                            let p = choose|p: (i64, Lit)| p.1@ == value@ && #[trigger] call_ensures(
                                *float_int,
                                (&p.1,),
                                p.0,
                            );
                            assert(call_ensures(*float_int, (&p.1,), p.0));
                            assert(call_ensures(*float_int, (value,), v));
                        }
                        v
                    },
                    Lit::String(_) => return Err(Error::ExpectedNumericLiteral),
                };
                encode_int_constant(scalar_ty, v)?
            },
            ScalarType::Float { bits } => {
                if !(bits == 16 || bits == 32 || bits == 64) {
                    return Err(Error::UnsupportedConstantType);
                }
                if let Lit::String(_) = value {
                    return Err(Error::ExpectedNumericLiteral);
                }
                let b = float_bits(value, bits);
                let mut ws: Vec<u32> = Vec::new();
                ws.push(#[verifier::truncate] (b as u32));
                if bits == 64 {
                    ws.push(#[verifier::truncate] ((b >> 32u64) as u32));
                }
                proof {
                    assert(ws@ =~= float_words(b, bits));
                    fb = b;
                }
                ws
            },
            _ => return Err(Error::UnsupportedConstantType),
        };
        let instr = InstructionBuilder::new(OP_CONSTANT).push(result_type_id).push(result_id).push_list(
            words.as_slice(),
        ).build();
        proof {
            assert(seq![OP_CONSTANT & 0xffffu32].push(result_type_id).push(result_id) + words@
                =~= seq![OP_CONSTANT & 0xffffu32] + (seq![result_type_id, result_id] + words@));
            assert(seq![OP_CONSTANT & 0xffffu32].push(result_type_id).push(result_id) + words@
                =~= seq![OP_CONSTANT & 0xffffu32, result_type_id, result_id] + words@);
        }
        let out = instr.into_words();
        proof {
            if let ScalarType::Float { bits } = scalar_ty {
                assert(out@ == built_words(
                    seq![OP_CONSTANT & 0xffffu32, result_type_id, result_id] + float_words(fb, bits),
                ));
                assert(float_bits_of(*float_bits, value@, bits, fb));
                assert(float_constant_words(*float_bits, result_type_id, result_id, value@, bits, out@));
            }
        }
        Ok(out)
    }
}

} // verus!
