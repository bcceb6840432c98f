//! Printing the operands of an instruction in SPIR-V assembly by the operand
//! layout of its opcode.
//!
//! Enumerants are printed by name; the names are the caller's, given as a
//! list of `EnumName`s, the first one given for an enumerant being used.
use vstd::prelude::*;

use crate::error::Error;
use crate::parse::instr::{str_bytes, str_end, Operands};
use crate::parse::words::{decode_utf8, valid_utf8};
use crate::spvasm::operand_layout::{
    opcode_slot_list,
    opcode_slots,
    param_slot_list,
    param_slots,
    EnumKind,
    OperandKind,
    Repeat,
    Slot,
};
use crate::spvasm::print::{
    id_text,
    pair_texts,
    print_id,
    print_list,
    print_pair_id_id_list,
    print_pair_id_u32_list,
    print_pair_u32_id_list,
    print_str,
    print_u32,
    texts,
    u32_text,
};
use crate::text::{push_char, push_dec};

verus! {

/// The name of the enumerant `value` of kind `kind`.
pub struct EnumName {
    pub kind: EnumKind,
    pub value: u32,
    pub name: String,
}

/// The first name given for the enumerant `value` of kind `kind`.
pub open spec fn enum_name_of(names: Seq<EnumName>, kind: EnumKind, value: u32) -> Option<
    Seq<char>,
>
    decreases names.len(),
{
    if names.len() == 0 {
        None
    } else if names[0].kind == kind && names[0].value == value {
        Some(names[0].name@)
    } else {
        enum_name_of(names.drop_first(), kind, value)
    }
}

/// What is printed before `res`, put in front of what `res` printed.
pub open spec fn after(prefix: Seq<Seq<char>>, res: Result<(Seq<Seq<char>>, Seq<u32>), Error>) -> Result<
    (Seq<Seq<char>>, Seq<u32>),
    Error,
> {
    match res {
        Ok((o, r)) => Ok((prefix + o, r)),
        Err(e) => Err(e),
    }
}

/// The text a float printer gives for a float of the given width with
/// the given bits.
pub open spec fn float_text_of<F: Fn(u64, u32) -> String>(f: F, bits: u64, width: u32) -> Seq<char> {
    (choose|s: String| call_ensures(f, (bits, width), s))@
}

/// A float printer that can be called on any float and gives one text for
/// each.
pub open spec fn prints_floats<F: Fn(u64, u32) -> String>(f: F) -> bool {
    &&& forall|b: u64, w: u32| #[trigger] f.requires((b, w))
    &&& forall|b: u64, w: u32, s1: String, s2: String|
        #[trigger] call_ensures(f, (b, w), s1) && #[trigger] call_ensures(f, (b, w), s2) ==> s1@ == s2@
}

/// The text `float_text` gives for a float of the given width.
pub fn print_float<F: Fn(u64, u32) -> String>(float_text: &F, bits: u64, width: u32) -> (r: String)
    requires
        prints_floats(*float_text),
    ensures
        r@ == float_text_of(*float_text, bits, width),
{
    let r = float_text(bits, width);
    proof {
        let c = choose|s: String| call_ensures(*float_text, (bits, width), s);
        assert(call_ensures(*float_text, (bits, width), c));
    }
    r
}

/// Printing one operand of kind `k` from the words `ws`: the printed text
/// and the words left, or the error. Enumerant parameters are printed to a
/// nesting depth of `depth`.
pub open spec fn printed_kind<F: Fn(u64, u32) -> String>(
    k: OperandKind,
    ws: Seq<u32>,
    names: Seq<EnumName>,
    depth: nat,
    f: F,
) -> Result<(Seq<Seq<char>>, Seq<u32>), Error>
    decreases depth, 0nat, 0nat,
{
    match k {
        OperandKind::Id => if ws.len() == 0 {
            Err(Error::OperandTooShort)
        } else {
            Ok((seq![id_text(ws[0])], ws.drop_first()))
        },
        OperandKind::U32 => if ws.len() == 0 {
            Err(Error::OperandTooShort)
        } else {
            Ok((seq![u32_text(ws[0])], ws.drop_first()))
        },
        OperandKind::F32 => if ws.len() == 0 {
            Err(Error::OperandTooShort)
        } else {
            Ok((seq![float_text_of(f, ws[0] as u64, 32)], ws.drop_first()))
        },
        OperandKind::Str => match str_end(ws) {
            None => Err(Error::StringNotNullTerminated),
            Some(e) => {
                let b = str_bytes(ws.take(e + 1));
                if valid_utf8(b) {
                    Ok((seq![seq!['"'] + decode_utf8(b) + seq!['"']], ws.skip(e + 1)))
                } else {
                    Err(Error::InvalidUtf8)
                }
            },
        },
        OperandKind::List => Ok((ws.map_values(|x: u32| u32_text(x)), Seq::empty())),
        OperandKind::PairIdIdList => if ws.len() % 2 == 0 {
            Ok((pair_texts(ws, true, true), Seq::empty()))
        } else {
            Err(Error::UnpairedOperands)
        },
        OperandKind::PairIdU32List => if ws.len() % 2 == 0 {
            Ok((pair_texts(ws, true, false), Seq::empty()))
        } else {
            Err(Error::UnpairedOperands)
        },
        OperandKind::PairU32IdList => if ws.len() % 2 == 0 {
            Ok((pair_texts(ws, false, true), Seq::empty()))
        } else {
            Err(Error::UnpairedOperands)
        },
        OperandKind::Enum(e) => if ws.len() == 0 {
            Err(Error::OperandTooShort)
        } else {
            match enum_name_of(names, e, ws[0]) {
                None => Err(Error::UnknownEnumerant(ws[0])),
                Some(n) => if depth == 0 {
                    Ok((seq![n], ws.drop_first()))
                } else {
                    after(
                        seq![n],
                        printed_slots(param_slots(e, ws[0]), ws.drop_first(), names, (depth - 1) as nat, f),
                    )
                },
            }
        },
    }
}

/// Printing the operands of the layout `slots` in turn from the words `ws`.
pub open spec fn printed_slots<F: Fn(u64, u32) -> String>(
    slots: Seq<Slot>,
    ws: Seq<u32>,
    names: Seq<EnumName>,
    depth: nat,
    f: F,
) -> Result<(Seq<Seq<char>>, Seq<u32>), Error>
    decreases depth, slots.len() + 2, 0nat,
{
    if slots.len() == 0 {
        Ok((Seq::empty(), ws))
    } else {
        let s = slots[0];
        let first = match s.repeat {
            Repeat::One => printed_kind(s.kind, ws, names, depth, f),
            Repeat::Optional => if ws.len() == 0 {
                Ok((Seq::empty(), ws))
            } else {
                printed_kind(s.kind, ws, names, depth, f)
            },
            Repeat::Many => printed_many(s.kind, ws, names, depth, f),
        };
        match first {
            Err(e) => Err(e),
            Ok((o1, r1)) => after(o1, printed_slots(slots.drop_first(), r1, names, depth, f)),
        }
    }
}

/// Printing operands of kind `k` from the words `ws` as long as words are
/// left.
pub open spec fn printed_many<F: Fn(u64, u32) -> String>(
    k: OperandKind,
    ws: Seq<u32>,
    names: Seq<EnumName>,
    depth: nat,
    f: F,
) -> Result<(Seq<Seq<char>>, Seq<u32>), Error>
    decreases depth, 1nat, ws.len(),
{
    if ws.len() == 0 {
        Ok((Seq::empty(), ws))
    } else {
        match printed_kind(k, ws, names, depth, f) {
            Err(e) => Err(e),
            Ok((o1, r1)) => if r1.len() < ws.len() {
                after(o1, printed_many(k, r1, names, depth, f))
            } else {
                Ok((o1, r1))
            },
        }
    }
}

/// A word that no layout covers, printed `!` and its number.
pub open spec fn extra_text(x: u32) -> Seq<char> {
    seq!['!'] + u32_text(x)
}

/// The operands of an instruction with opcode `op` printed from its operand
/// words `ws`: by the layout of the opcode, then every word left as an
/// extra one. Enumerant parameters nest two deep at most.
pub open spec fn printed_operand<F: Fn(u64, u32) -> String>(
    op: u32,
    ws: Seq<u32>,
    names: Seq<EnumName>,
    f: F,
) -> Result<
    Seq<Seq<char>>,
    Error,
> {
    match opcode_slots(op) {
        None => Err(Error::UnsupportedOpcode(op)),
        Some(slots) => match printed_slots(slots, ws, names, 2, f) {
            Err(e) => Err(e),
            Ok((o, r)) => Ok(o + r.map_values(|x: u32| extra_text(x))),
        },
    }
}

proof fn lemma_str_end_bound(ws: Seq<u32>)
    ensures
        str_end(ws) matches Some(e) ==> 0 <= e < ws.len(),
    decreases ws.len(),
{
    if ws.len() > 0 {
        lemma_str_end_bound(ws.drop_first());
    }
}

proof fn lemma_kind_shrinks<F: Fn(u64, u32) -> String>(
    k: OperandKind,
    ws: Seq<u32>,
    names: Seq<EnumName>,
    depth: nat,
    f: F,
)
    ensures
        printed_kind(k, ws, names, depth, f) matches Ok((o, r)) ==> r.len() <= ws.len() && (ws.len()
            > 0 ==> r.len() < ws.len()),
    decreases depth, 0nat, 0nat,
{
    lemma_str_end_bound(ws);
    if let OperandKind::Enum(e) = k {
        if ws.len() > 0 && depth > 0 {
            lemma_slots_shrink(param_slots(e, ws[0]), ws.drop_first(), names, (depth - 1) as nat, f);
        }
    }
}

proof fn lemma_slots_shrink<F: Fn(u64, u32) -> String>(
    slots: Seq<Slot>,
    ws: Seq<u32>,
    names: Seq<EnumName>,
    depth: nat,
    f: F,
)
    ensures
        printed_slots(slots, ws, names, depth, f) matches Ok((o, r)) ==> r.len() <= ws.len(),
    decreases depth, slots.len() + 2, 0nat,
{
    if slots.len() > 0 {
        let s = slots[0];
        lemma_kind_shrinks(s.kind, ws, names, depth, f);
        lemma_many_shrinks(s.kind, ws, names, depth, f);
        let first = match s.repeat {
            Repeat::One => printed_kind(s.kind, ws, names, depth, f),
            Repeat::Optional => if ws.len() == 0 {
                Ok((Seq::empty(), ws))
            } else {
                printed_kind(s.kind, ws, names, depth, f)
            },
            Repeat::Many => printed_many(s.kind, ws, names, depth, f),
        };
        if let Ok((o1, r1)) = first {
            lemma_slots_shrink(slots.drop_first(), r1, names, depth, f);
        }
    }
}

proof fn lemma_many_shrinks<F: Fn(u64, u32) -> String>(
    k: OperandKind,
    ws: Seq<u32>,
    names: Seq<EnumName>,
    depth: nat,
    f: F,
)
    ensures
        printed_many(k, ws, names, depth, f) matches Ok((o, r)) ==> r.len() <= ws.len(),
    decreases depth, 1nat, ws.len(),
{
    if ws.len() > 0 {
        lemma_kind_shrinks(k, ws, names, depth, f);
        if let Ok((o1, r1)) = printed_kind(k, ws, names, depth, f) {
            if r1.len() < ws.len() {
                lemma_many_shrinks(k, r1, names, depth, f);
            }
        }
    }
}

proof fn lemma_texts_append(a: Seq<String>, b: Seq<String>)
    ensures
        texts(a + b) == texts(a) + texts(b),
{
    assert(texts(a + b) =~= texts(a) + texts(b));
}

/// A capability operand takes no parameters: it prints as the name given
/// for its value and takes that one word; with no word left it is too
/// short, and with no name given for the value it is unknown.
pub proof fn lemma_capability_operand<F: Fn(u64, u32) -> String>(
    ws: Seq<u32>,
    names: Seq<EnumName>,
    depth: nat,
    f: F,
)
    ensures
        printed_kind(OperandKind::Enum(EnumKind::Capability), ws, names, depth, f) == if ws.len()
            == 0 {
            Err(Error::OperandTooShort)
        } else {
            match enum_name_of(names, EnumKind::Capability, ws[0]) {
                Some(n) => Ok((seq![n], ws.drop_first())),
                None => Err(Error::UnknownEnumerant(ws[0])),
            }
        },
{
    if ws.len() > 0 && depth > 0 {
        let rest = ws.drop_first();
        assert(param_slots(EnumKind::Capability, ws[0]) =~= Seq::<Slot>::empty());
        assert(printed_slots(Seq::<Slot>::empty(), rest, names, (depth - 1) as nat, f) == Ok::<
            (Seq<Seq<char>>, Seq<u32>),
            Error,
        >((Seq::empty(), rest)));
        if let Some(n) = enum_name_of(names, EnumKind::Capability, ws[0]) {
            assert(seq![n] + Seq::<Seq<char>>::empty() =~= seq![n]);
        }
    }
}

/// Move the strings of `more` to the end of `out`.
fn append_texts(out: &mut Vec<String>, more: Vec<String>)
    ensures
        texts(final(out)@) == texts(old(out)@) + texts(more@),
{
    let mut more = more;
    proof {
        lemma_texts_append(out@, more@);
    }
    out.append(&mut more);
}

/// The first name given for the enumerant `value` of kind `kind`.
fn enum_name(names: &Vec<EnumName>, kind: EnumKind, value: u32) -> (r: Result<String, Error>)
    ensures
        match enum_name_of(names@, kind, value) {
            Some(n) => r matches Ok(s) && s@ == n,
            None => r == Err::<String, Error>(Error::UnknownEnumerant(value)),
        },
{
    let mut i: usize = 0;
    assert(names@.skip(0) =~= names@);
    while i < names.len()
        invariant
            i <= names@.len(),
            enum_name_of(names@, kind, value) == enum_name_of(names@.skip(i as int), kind, value),
        decreases names@.len() - i,
    {
        assert(names@.skip(i as int).drop_first() =~= names@.skip(i + 1));
        assert(names@.skip(i as int)[0] == names@[i as int]);
        if names[i].kind == kind && names[i].value == value {
            return Ok(names[i].name.clone());
        }
        i = i + 1;
    }
    Err(Error::UnknownEnumerant(value))
}

fn print_kind<F: Fn(u64, u32) -> String>(
    k: OperandKind,
    operands: &mut Operands,
    names: &Vec<EnumName>,
    depth: u32,
    float_text: &F,
) -> (res: Result<Vec<String>, Error>)
    requires
        prints_floats(*float_text),
    ensures
        match printed_kind(k, old(operands)@, names@, depth as nat, *float_text) {
            Ok((o, r)) => res matches Ok(v) && texts(v@) == o && final(operands)@ == r,
            Err(e) => res == Err::<Vec<String>, Error>(e),
        },
    decreases depth, 0nat, 0nat,
{
    match k {
        OperandKind::Id => {
            let s = print_id(operands)?;
            let v = vec![s];
            assert(texts(v@) =~= seq![s@]);
            Ok(v)
        },
        OperandKind::U32 => {
            let s = print_u32(operands)?;
            let v = vec![s];
            assert(texts(v@) =~= seq![s@]);
            Ok(v)
        },
        OperandKind::F32 => {
            let bits = operands.read_u32()?;
            let s = print_float(float_text, bits as u64, 32);
            let v = vec![s];
            assert(texts(v@) =~= seq![s@]);
            Ok(v)
        },
        OperandKind::Str => {
            let s = print_str(operands)?;
            let v = vec![s];
            assert(texts(v@) =~= seq![s@]);
            Ok(v)
        },
        OperandKind::List => print_list(operands),
        OperandKind::PairIdIdList => print_pair_id_id_list(operands),
        OperandKind::PairIdU32List => print_pair_id_u32_list(operands),
        OperandKind::PairU32IdList => print_pair_u32_id_list(operands),
        OperandKind::Enum(e) => {
            let value = operands.read_u32()?;
            let n = enum_name(names, e, value)?;
            let mut out = vec![n];
            assert(texts(out@) =~= seq![n@]);
            if depth == 0 {
                return Ok(out);
            }
            let params = param_slot_list(e, value);
            let more = print_slots(&params, operands, names, depth - 1, float_text)?;
            append_texts(&mut out, more);
            Ok(out)
        },
    }
}

fn print_many<F: Fn(u64, u32) -> String>(
    k: OperandKind,
    operands: &mut Operands,
    names: &Vec<EnumName>,
    depth: u32,
    float_text: &F,
) -> (res: Result<Vec<String>, Error>)
    requires
        prints_floats(*float_text),
    ensures
        match printed_many(k, old(operands)@, names@, depth as nat, *float_text) {
            Ok((o, r)) => res matches Ok(v) && texts(v@) == o && final(operands)@ == r,
            Err(e) => res == Err::<Vec<String>, Error>(e),
        },
    decreases depth, 1nat, 0nat,
{
    let ghost ws0 = operands@;
    let mut out: Vec<String> = Vec::new();
    while !operands.is_empty()
        invariant
            ws0 == old(operands)@,
            prints_floats(*float_text),
            printed_many(k, ws0, names@, depth as nat, *float_text) == after(
                texts(out@),
                printed_many(k, operands@, names@, depth as nat, *float_text),
            ),
        decreases operands@.len(),
    {
        let ghost before = operands@;
        proof {
            lemma_kind_shrinks(k, before, names@, depth as nat, *float_text);
        }
        let v = match print_kind(k, operands, names, depth, float_text) {
            Ok(v) => v,
            Err(e) => {
                assert(printed_many(k, before, names@, depth as nat, *float_text) == Err::<
                    (Seq<Seq<char>>, Seq<u32>),
                    Error,
                >(e));
                assert(printed_many(k, ws0, names@, depth as nat, *float_text) == Err::<
                    (Seq<Seq<char>>, Seq<u32>),
                    Error,
                >(e));
                return Err(e);
            },
        };
        let ghost prefix = texts(out@);
        append_texts(&mut out, v);
        proof {
            assert(prefix + texts(v@) + Seq::<Seq<char>>::empty() =~= texts(out@));
            match printed_many(k, operands@, names@, depth as nat, *float_text) {
                Ok((o2, r2)) => {
                    assert(prefix + (texts(v@) + o2) =~= texts(out@) + o2);
                },
                Err(e) => {},
            }
        }
    }
    assert(texts(out@) + Seq::<Seq<char>>::empty() =~= texts(out@));
    Ok(out)
}

fn print_slots<F: Fn(u64, u32) -> String>(
    slots: &Vec<Slot>,
    operands: &mut Operands,
    names: &Vec<EnumName>,
    depth: u32,
    float_text: &F,
) -> (res: Result<Vec<String>, Error>)
    requires
        prints_floats(*float_text),
    ensures
        match printed_slots(slots@, old(operands)@, names@, depth as nat, *float_text) {
            Ok((o, r)) => res matches Ok(v) && texts(v@) == o && final(operands)@ == r,
            Err(e) => res == Err::<Vec<String>, Error>(e),
        },
    decreases depth, 2nat, 0nat,
{
    let ghost ws0 = operands@;
    let mut out: Vec<String> = Vec::new();
    let mut i: usize = 0;
    assert(slots@.skip(0) =~= slots@);
    assert(texts(out@) =~= Seq::<Seq<char>>::empty());
    while i < slots.len()
        invariant
            i <= slots@.len(),
            ws0 == old(operands)@,
            prints_floats(*float_text),
            printed_slots(slots@, ws0, names@, depth as nat, *float_text) == after(
                texts(out@),
                printed_slots(slots@.skip(i as int), operands@, names@, depth as nat, *float_text),
            ),
        decreases slots@.len() - i,
    {
        let s = slots[i];
        assert(slots@.skip(i as int)[0] == s);
        assert(slots@.skip(i as int).drop_first() =~= slots@.skip(i + 1));
        let ghost before = operands@;
        let printed = match s.repeat {
            Repeat::One => print_kind(s.kind, operands, names, depth, float_text),
            Repeat::Optional => if operands.is_empty() {
                let e: Vec<String> = Vec::new();
                assert(texts(e@) =~= Seq::<Seq<char>>::empty());
                Ok(e)
            } else {
                print_kind(s.kind, operands, names, depth, float_text)
            },
            Repeat::Many => print_many(s.kind, operands, names, depth, float_text),
        };
        let v = match printed {
            Ok(v) => v,
            Err(e) => {
                assert(printed_slots(slots@.skip(i as int), before, names@, depth as nat, *float_text) == Err::<
                    (Seq<Seq<char>>, Seq<u32>),
                    Error,
                >(e));
                assert(printed_slots(slots@, ws0, names@, depth as nat, *float_text) == Err::<
                    (Seq<Seq<char>>, Seq<u32>),
                    Error,
                >(e));
                return Err(e);
            },
        };
        let ghost prefix = texts(out@);
        append_texts(&mut out, v);
        proof {
            match printed_slots(slots@.skip(i + 1), operands@, names@, depth as nat, *float_text) {
                Ok((o2, r2)) => {
                    assert(prefix + (texts(v@) + o2) =~= texts(out@) + o2);
                },
                Err(e) => {},
            }
        }
        i = i + 1;
    }
    assert(slots@.skip(i as int) =~= Seq::<Slot>::empty());
    assert(texts(out@) + Seq::<Seq<char>>::empty() =~= texts(out@));
    Ok(out)
}

/// Print the operands of an instruction with opcode `opcode` by the operand
/// layout of the opcode, then each word left over as `!` and its number.
/// Enumerants are printed by the first name that `enum_names` gives them.
pub fn print_operand<F: Fn(u64, u32) -> String>(
    opcode: u32,
    operands: &mut Operands,
    enum_names: &Vec<EnumName>,
    float_text: &F,
) -> (r: Result<Vec<String>, Error>)
    requires
        prints_floats(*float_text),
    ensures
        match printed_operand(opcode, old(operands)@, enum_names@, *float_text) {
            Ok(o) => r matches Ok(v) && texts(v@) == o && final(operands)@.len() == 0,
            Err(e) => r == Err::<Vec<String>, Error>(e),
        },
{
    let slots = match opcode_slot_list(opcode) {
        Some(s) => s,
        None => return Err(Error::UnsupportedOpcode(opcode)),
    };
    let mut out = print_slots(&slots, operands, enum_names, 2, float_text)?;
    let ghost printed = texts(out@);
    let ghost rest = operands@;
    while !operands.is_empty()
        invariant
            rest.len() >= operands@.len(),
            operands@ == rest.skip(rest.len() - operands@.len()),
            texts(out@) == printed + rest.take(rest.len() - operands@.len()).map_values(
                |x: u32| extra_text(x),
            ),
        decreases operands@.len(),
    {
        let ghost j = rest.len() - operands@.len();
        assert(operands@[0] == rest[j]);
        let x = operands.read_u32()?;
        let mut s = String::new();
        push_char(&mut s, '!');
        push_dec(&mut s, x as u64);
        let ghost prev = texts(out@);
        out.push(s);
        proof {
            assert(operands@ =~= rest.skip(j + 1));
            assert(rest.take(j + 1).map_values(|x: u32| extra_text(x)) =~= rest.take(j).map_values(
                |x: u32| extra_text(x),
            ).push(extra_text(x)));
            assert(texts(out@) =~= prev.push(s@));
        }
    }
    assert(rest.take(rest.len() as int) =~= rest);
    Ok(out)
}

} // verus!
