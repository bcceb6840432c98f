//! Printing instructions as lines of SPIR-V assembly.
use vstd::prelude::*;

use std::collections::HashMap;

use crate::error::Error;
use crate::parse::instr::{opcode_of, spec_load, Instr, Instrs, Operands};
use crate::parse::bin::{header_of, SpirvBinary, HEADER_LEN};
use crate::spvasm::disassembler::{header_lines_spec, indent_width, lines_view, max_eq_pos, spaces, Disassembler};
use crate::spvasm::isa::{op_by_code, op_has_result_id, op_has_result_type_id, op_to_str, InstructionSet};
use crate::spvasm::print::texts;
use crate::spvasm::print_operand::{float_text_of, print_float, print_operand, printed_operand, prints_floats};
use crate::text::{dec_chars, push_char, push_dec, push_signed_dec, push_str, signed_dec_chars};
use crate::ty::{ScalarType, Type, TypeRegistry};

verus! {

broadcast use vstd::std_specs::hash::group_hash_axioms;

/// Opcode of `OpConstant`.
pub const OP_CONSTANT: u32 = 43;

/// The texts joined with `sep` between them.
pub open spec fn joined(ts: Seq<Seq<char>>, sep: Seq<char>) -> Seq<char>
    decreases ts.len(),
{
    if ts.len() == 0 {
        Seq::empty()
    } else if ts.len() == 1 {
        ts[0]
    } else {
        joined(ts.drop_last(), sep) + sep + ts.last()
    }
}

/// The strings joined with `sep` between them.
pub fn join_strings(v: &Vec<String>, sep: &str) -> (r: String)
    ensures
        r@ == joined(texts(v@), sep@),
{
    let mut out = String::new();
    let mut i: usize = 0;
    while i < v.len()
        invariant
            i <= v@.len(),
            out@ == joined(texts(v@.take(i as int)), sep@),
        decreases v@.len() - i,
    {
        let ghost prev = texts(v@.take(i as int));
        assert(texts(v@.take(i + 1)).drop_last() =~= prev);
        assert(texts(v@.take(i + 1)).last() == v@[i as int]@);
        if i > 0 {
            push_str(&mut out, sep);
        } else {
            assert(prev.len() == 0);
        }
        push_str(&mut out, v[i].as_str());
        i = i + 1;
    }
    assert(v@.take(v@.len() as int) =~= v@);
    out
}

/// An id as the disassembler writes it: `%` and its collected name, or its
/// number.
pub open spec fn id_text_named(id: u32, names: Map<u32, String>) -> Seq<char> {
    seq!['%'] + if names.contains_key(id) {
        names[id]@
    } else {
        dec_chars(id as nat)
    }
}

/// The low byte of a word, as a signed number.
pub open spec fn low_i8(w: u32) -> int {
    let b = w % 256;
    if b >= 128 {
        b - 256
    } else {
        b as int
    }
}

/// The low half of a word, as a signed number.
pub open spec fn low_i16(w: u32) -> int {
    let h = w % 65536;
    if h >= 32768 {
        h - 65536
    } else {
        h as int
    }
}

/// A word as a signed number.
pub open spec fn word_i32(w: u32) -> int {
    if w >= 0x8000_0000 {
        w - 0x1_0000_0000
    } else {
        w as int
    }
}

/// Two words, low first, as an unsigned number.
pub open spec fn words_u64(lo: u32, hi: u32) -> nat {
    (hi * 0x1_0000_0000 + lo) as nat
}

/// Two words, low first, as a signed number.
pub open spec fn words_i64(lo: u32, hi: u32) -> int {
    if hi >= 0x8000_0000 {
        words_u64(lo, hi) - 0x1_0000_0000_0000_0000
    } else {
        words_u64(lo, hi) as int
    }
}

/// The value of an `OpConstant` of the scalar type `s` from the words `ws`, as
/// printed after the result type (a space, then the number), and how many
/// words it takes. A floating-point value is printed as the float printer
/// `f` prints its bits.
pub open spec fn scalar_constant_text<F: Fn(u64, u32) -> String>(s: ScalarType, ws: Seq<u32>, f: F) -> Result<
    (Seq<char>, nat),
    Error,
> {
    match s {
        ScalarType::Integer { bits, is_signed } => if bits == 8 || bits == 16 || bits == 32 {
            if ws.len() == 0 {
                Err(Error::OperandTooShort)
            } else {
                let v: int = if is_signed {
                    if bits == 8 {
                        low_i8(ws[0])
                    } else if bits == 16 {
                        low_i16(ws[0])
                    } else {
                        word_i32(ws[0])
                    }
                } else {
                    if bits == 8 {
                        (ws[0] % 256) as int
                    } else if bits == 16 {
                        (ws[0] % 65536) as int
                    } else {
                        ws[0] as int
                    }
                };
                Ok((seq![' '] + signed_dec_chars(v), 1))
            }
        } else if bits == 64 {
            if ws.len() < 2 {
                Err(Error::OperandTooShort)
            } else {
                let v: int = if is_signed {
                    words_i64(ws[0], ws[1])
                } else {
                    words_u64(ws[0], ws[1]) as int
                };
                Ok((seq![' '] + signed_dec_chars(v), 2))
            }
        } else {
            Err(Error::UnsupportedConstantType)
        },
        ScalarType::Float { bits } => if bits == 16 || bits == 32 {
            if ws.len() == 0 {
                Err(Error::OperandTooShort)
            } else {
                let b: u64 = if bits == 16 {
                    (ws[0] % 65536) as u64
                } else {
                    ws[0] as u64
                };
                Ok((seq![' '] + float_text_of(f, b, bits), 1))
            }
        } else if bits == 64 {
            if ws.len() < 2 {
                Err(Error::OperandTooShort)
            } else {
                Ok((seq![' '] + float_text_of(f, words_u64(ws[0], ws[1]) as u64, 64), 2))
            }
        } else {
            Err(Error::UnsupportedConstantType)
        },
        _ => Err(Error::UnsupportedConstantType),
    }
}

/// The value of an `OpConstant` with result type `result_type_id`, printed
/// from its value words `ws` by the type registered for the id.
pub open spec fn constant_operand_text<F: Fn(u64, u32) -> String>(
    result_type_id: Option<u32>,
    ws: Seq<u32>,
    tys: Map<u32, Type>,
    f: F,
) -> Result<(Seq<char>, nat), Error> {
    match result_type_id {
        None => Err(Error::ExpectedResultTypeId(OP_CONSTANT)),
        Some(tid) => if !tys.contains_key(tid) {
            Err(Error::MissingType(tid))
        } else {
            match tys[tid] {
                Type::Scalar(s) => scalar_constant_text(s, ws, f),
                _ => Err(Error::UnsupportedConstantType),
            }
        },
    }
}

/// Printing a constant's value takes the words of one value of its type:
/// two for a 64-bit integer or float, one otherwise, and never more words
/// than there are.
pub proof fn lemma_constant_operand_words<F: Fn(u64, u32) -> String>(
    result_type_id: Option<u32>,
    ws: Seq<u32>,
    tys: Map<u32, Type>,
    f: F,
)
    ensures
        constant_operand_text(result_type_id, ws, tys, f) matches Ok((_, n)) ==> {
            &&& n <= ws.len()
            &&& result_type_id matches Some(tid) && tys.contains_key(tid) && (match tys[tid] {
                Type::Scalar(ScalarType::Integer { bits, .. }) => n == if bits == 64 {
                    2nat
                } else {
                    1nat
                },
                Type::Scalar(ScalarType::Float { bits }) => n == if bits == 64 {
                    2nat
                } else {
                    1nat
                },
                _ => false,
            })
        },
{
}

/// The line that the disassembler prints for the instruction `ws`.
pub open spec fn line_text<F: Fn(u64, u32) -> String>(
    ws: Seq<u32>,
    tys: Map<u32, Type>,
    names: Map<u32, String>,
    isa: InstructionSet,
    f: F,
) -> Result<Seq<char>, Error> {
    let opcode = opcode_of(ws[0]);
    let ops = ws.skip(1);
    match op_by_code(isa.ops@, opcode) {
        None => Err(Error::UnsupportedOpcode(opcode)),
        Some(o) => {
            if o.has_result_type_id && ops.len() == 0 {
                Err(Error::OperandTooShort)
            } else {
                let rt: Option<u32> = if o.has_result_type_id {
                    Some(ops[0])
                } else {
                    None
                };
                let ops1 = if o.has_result_type_id {
                    ops.drop_first()
                } else {
                    ops
                };
                if o.has_result_id && ops1.len() == 0 {
                    Err(Error::OperandTooShort)
                } else {
                    let rid: Option<u32> = if o.has_result_id {
                        Some(ops1[0])
                    } else {
                        None
                    };
                    let ops2 = if o.has_result_id {
                        ops1.drop_first()
                    } else {
                        ops1
                    };
                    let head = match rid {
                        Some(id) => id_text_named(id, names) + " = "@,
                        None => Seq::empty(),
                    } + o.name@ + match rt {
                        Some(id) => seq![' '] + id_text_named(id, names),
                        None => Seq::empty(),
                    };
                    let (value, ops3) = if opcode == OP_CONSTANT {
                        match constant_operand_text(rt, ops2, tys, f) {
                            Ok((t, n)) => (t, ops2.skip(n as int)),
                            Err(_) => (Seq::empty(), ops2),
                        }
                    } else {
                        (Seq::empty(), ops2)
                    };
                    match printed_operand(opcode, ops3, isa.enums@, f) {
                        Err(e) => Err(e),
                        Ok(printed) => {
                            let rest = joined(printed, seq![' ']);
                            Ok(
                                head + value + if rest.len() == 0 {
                                    Seq::empty()
                                } else {
                                    seq![' '] + rest
                                },
                            )
                        },
                    }
                }
            }
        },
    }
}

/// The lines printed for the instructions that a reader with `cached`
/// loaded ahead of the words `rest` yields, or the first error: an error in
/// reading the instruction after one comes before an error in printing it.
pub open spec fn lines_text<F: Fn(u64, u32) -> String>(
    cached: Option<Seq<u32>>,
    rest: Seq<u32>,
    tys: Map<u32, Type>,
    names: Map<u32, String>,
    isa: InstructionSet,
    f: F,
) -> Result<Seq<Seq<char>>, Error>
    decreases rest.len(), if cached is Some { 1nat } else { 0nat },
{
    match cached {
        None => match spec_load(rest) {
            Err(e) => Err(e),
            Ok(_) => Ok(Seq::empty()),
        },
        Some(w) => match spec_load(rest) {
            Err(e) => Err(e),
            Ok((c2, r2)) => match line_text(w, tys, names, isa, f) {
                Err(e) => Err(e),
                Ok(l) => if r2.len() < rest.len() || (r2.len() == rest.len() && c2 is None) {
                    match lines_text(c2, r2, tys, names, isa, f) {
                        Ok(ls) => Ok(seq![l] + ls),
                        Err(e) => Err(e),
                    }
                } else {
                    Ok(seq![l])
                },
            },
        },
    }
}

proof fn lemma_load_shrinks(rest: Seq<u32>)
    ensures
        spec_load(rest) matches Ok((c2, r2)) ==> (r2.len() <= rest.len() && (c2 is Some ==> r2.len()
            < rest.len())),
{
}

fn low_byte_signed(w: u32) -> (r: i64)
    ensures
        r == low_i8(w),
{
    let b = w & 0xff;
    assert(b == w % 256) by (bit_vector)
        requires
            b == w & 0xff,
    ;
    if b >= 128 {
        b as i64 - 256
    } else {
        b as i64
    }
}

fn low_half_signed(w: u32) -> (r: i64)
    ensures
        r == low_i16(w),
{
    let h = w & 0xffff;
    assert(h == w % 65536) by (bit_vector)
        requires
            h == w & 0xffff,
    ;
    if h >= 32768 {
        h as i64 - 65536
    } else {
        h as i64
    }
}

fn print_scalar_constant<F: Fn(u64, u32) -> String>(
    s: &ScalarType,
    operands: &mut Operands,
    float_text: &F,
) -> (r: Result<String, Error>)
    requires
        prints_floats(*float_text),
    ensures
        match scalar_constant_text(*s, old(operands)@, *float_text) {
            Ok((t, n)) => r matches Ok(x) && x@ == t && final(operands)@ == old(operands)@.skip(
                n as int,
            ),
            Err(e) => r == Err::<String, Error>(e),
        },
{
    let mut out = String::new();
    push_char(&mut out, ' ');
    match s {
        ScalarType::Integer { bits, is_signed } => {
            if *bits == 8 || *bits == 16 || *bits == 32 {
                let w = operands.read_u32()?;
                let v: i64 = if *is_signed {
                    if *bits == 8 {
                        low_byte_signed(w)
                    } else if *bits == 16 {
                        low_half_signed(w)
                    } else {
                        (w as i32) as i64
                    }
                } else {
                    if *bits == 8 {
                        let b = w & 0xff;
                        assert(b == w % 256) by (bit_vector)
        requires
            b == w & 0xff,
    ;
                        b as i64
                    } else if *bits == 16 {
                        let h = w & 0xffff;
                        assert(h == w % 65536) by (bit_vector)
        requires
            h == w & 0xffff,
    ;
                        h as i64
                    } else {
                        w as i64
                    }
                };
                proof {
                    if *is_signed && *bits == 32 {
                        assert((w as i32) as int == word_i32(w)) by (bit_vector);
                    }
                }
                push_signed_dec(&mut out, v);
                assert(old(operands)@.skip(1) == old(operands)@.drop_first());
                Ok(out)
            } else if *bits == 64 {
                if operands.len() < 2 {
                    return Err(Error::OperandTooShort);
                }
                let lo = operands.read_u32()?;
                let hi = operands.read_u32()?;
                let u: u64 = ((hi as u64) << 32u64) | (lo as u64);
                assert(u == hi * 0x1_0000_0000u64 + lo) by (bit_vector)
                    requires
                        u == ((hi as u64) << 32u64) | (lo as u64),
                ;
                if *is_signed {
                    let v = u as i64;
                    assert(v as int == words_i64(lo, hi)) by (bit_vector)
                        requires
                            u == hi * 0x1_0000_0000u64 + lo,
                            v == u as i64,
                    ;
                    push_signed_dec(&mut out, v);
                } else {
                    push_dec(&mut out, u);
                    assert(signed_dec_chars(u as int) == dec_chars(u as nat));
                }
                assert(old(operands)@.skip(2) =~= old(operands)@.drop_first().drop_first());
                Ok(out)
            } else {
                Err(Error::UnsupportedConstantType)
            }
        },
        ScalarType::Float { bits } => if *bits == 16 || *bits == 32 {
            let w = operands.read_u32()?;
            let b: u64 = if *bits == 16 {
                let h = w & 0xffff;
                assert(h == w % 65536) by (bit_vector)
                    requires
                        h == w & 0xffff,
                ;
                h as u64
            } else {
                w as u64
            };
            let t = print_float(float_text, b, *bits);
            push_str(&mut out, t.as_str());
            assert(old(operands)@.skip(1) == old(operands)@.drop_first());
            Ok(out)
        } else if *bits == 64 {
            if operands.len() < 2 {
                return Err(Error::OperandTooShort);
            }
            let lo = operands.read_u32()?;
            let hi = operands.read_u32()?;
            let u: u64 = ((hi as u64) << 32u64) | (lo as u64);
            assert(u == hi * 0x1_0000_0000u64 + lo) by (bit_vector)
                requires
                    u == ((hi as u64) << 32u64) | (lo as u64),
            ;
            let t = print_float(float_text, u, 64);
            push_str(&mut out, t.as_str());
            assert(old(operands)@.skip(2) =~= old(operands)@.drop_first().drop_first());
            Ok(out)
        } else {
            Err(Error::UnsupportedConstantType)
        },
        _ => Err(Error::UnsupportedConstantType),
    }
}

/// The lines as the disassembler lays them out: unchanged, or each
/// indented so that the `=` of assignments line up.
pub open spec fn laid_out(d: Disassembler, ls: Seq<Seq<char>>) -> Seq<Seq<char>> {
    if d.spec_indent() {
        Seq::new(
            ls.len(),
            |i: int| spaces(indent_width(ls[i], max_eq_pos(ls, ls.len() as int)) as nat) + ls[i],
        )
    } else {
        ls
    }
}

/// The assembly text of the module `ws`: the header comments if they are
/// printed, then the laid-out instruction lines, each ended by a line feed.
pub open spec fn disassembly_text<F: Fn(u64, u32) -> String>(
    d: Disassembler,
    ws: Seq<u32>,
    tys: Map<u32, Type>,
    names: Map<u32, String>,
    isa: InstructionSet,
    f: F,
) -> Result<Seq<char>, Error> {
    let header = if d.spec_print_header() {
        header_lines_spec(header_of(ws))
    } else {
        Seq::empty()
    };
    match spec_load(ws.skip(HEADER_LEN as int)) {
        Err(e) => Err(e),
        Ok((c, rest)) => match lines_text(c, rest, tys, names, isa, f) {
            Err(e) => Err(e),
            Ok(ls) => Ok(joined(header + laid_out(d, ls) + seq![Seq::<char>::empty()], seq!['\n'])),
        },
    }
}

/// The lines, each followed by a line feed.
pub open spec fn terminated(ls: Seq<Seq<char>>) -> Seq<char>
    decreases ls.len(),
{
    if ls.len() == 0 {
        Seq::empty()
    } else {
        terminated(ls.drop_last()) + ls.last() + seq!['\n']
    }
}

/// Joining lines and one empty line after them with line feeds ends every
/// line with a line feed.
pub proof fn lemma_joined_terminated(ls: Seq<Seq<char>>)
    ensures
        joined(ls + seq![Seq::<char>::empty()], seq!['\n']) == terminated(ls),
    decreases ls.len(),
{
    let all = ls + seq![Seq::<char>::empty()];
    if ls.len() == 0 {
        assert(all =~= seq![Seq::<char>::empty()]);
    } else {
        lemma_joined_terminated(ls.drop_last());
        assert(all.drop_last() =~= ls);
        assert(all.drop_last().drop_last() + seq![Seq::<char>::empty()] =~= ls.drop_last() + seq![
            Seq::<char>::empty(),
        ]);
        lemma_joined_last(ls);
        assert(joined(all, seq!['\n']) == joined(ls, seq!['\n']) + seq!['\n']);
        assert(joined(ls.drop_last() + seq![Seq::<char>::empty()], seq!['\n']) == terminated(
            ls.drop_last(),
        ));
        lemma_joined_split(ls);
    }
}

proof fn lemma_joined_last(ls: Seq<Seq<char>>)
    requires
        ls.len() > 0,
    ensures
        joined(ls + seq![Seq::<char>::empty()], seq!['\n']) == joined(ls, seq!['\n']) + seq!['\n'],
{
    let all = ls + seq![Seq::<char>::empty()];
    assert(all.drop_last() =~= ls);
    assert(all.last() == Seq::<char>::empty());
    assert(joined(all, seq!['\n']) =~= joined(ls, seq!['\n']) + seq!['\n'] + Seq::<char>::empty());
}

proof fn lemma_joined_split(ls: Seq<Seq<char>>)
    requires
        ls.len() > 0,
        joined(ls.drop_last() + seq![Seq::<char>::empty()], seq!['\n']) == terminated(ls.drop_last()),
    ensures
        joined(ls, seq!['\n']) + seq!['\n'] == terminated(ls),
{
    if ls.len() == 1 {
        assert(ls.drop_last() =~= Seq::<Seq<char>>::empty());
        assert(terminated(ls) =~= ls[0] + seq!['\n']);
    } else {
        lemma_joined_last(ls.drop_last());
        assert(joined(ls, seq!['\n']) == joined(ls.drop_last(), seq!['\n']) + seq!['\n'] + ls.last());
        assert(joined(ls, seq!['\n']) + seq!['\n'] =~= terminated(ls.drop_last()) + ls.last() + seq![
            '\n',
        ]);
    }
}

/// The text of a module that holds only its header: the header comments,
/// if they are printed, each ended by a line feed.
pub proof fn lemma_header_only_disassembly<F: Fn(u64, u32) -> String>(
    d: Disassembler,
    ws: Seq<u32>,
    tys: Map<u32, Type>,
    names: Map<u32, String>,
    isa: InstructionSet,
    f: F,
)
    requires
        ws.len() == HEADER_LEN,
    ensures
        disassembly_text(d, ws, tys, names, isa, f) == Ok::<Seq<char>, Error>(
            if d.spec_print_header() {
                terminated(header_lines_spec(header_of(ws)))
            } else {
                Seq::empty()
            },
        ),
{
    let rest = ws.skip(HEADER_LEN as int);
    assert(rest.len() == 0);
    assert(spec_load(rest) == Ok::<(Option<Seq<u32>>, Seq<u32>), Error>((None, rest)));
    assert(lines_text(None, rest, tys, names, isa, f) == Ok::<Seq<Seq<char>>, Error>(Seq::empty()));
    assert(laid_out(d, Seq::empty()) =~= Seq::<Seq<char>>::empty());
    let header = if d.spec_print_header() {
        header_lines_spec(header_of(ws))
    } else {
        Seq::empty()
    };
    assert(header + laid_out(d, Seq::empty()) =~= header);
    lemma_joined_terminated(header);
    if !d.spec_print_header() {
        assert(terminated(Seq::<Seq<char>>::empty()) =~= Seq::<char>::empty());
    }
}

/// Lines laid end to end, each ended by a line feed: the text of the first
/// lines, then that of the others.
pub proof fn lemma_terminated_concat(a: Seq<Seq<char>>, b: Seq<Seq<char>>)
    ensures
        terminated(a + b) == terminated(a) + terminated(b),
    decreases b.len(),
{
    if b.len() == 0 {
        assert(a + b =~= a);
        assert(terminated(a) + terminated(b) =~= terminated(a));
    } else {
        lemma_terminated_concat(a, b.drop_last());
        assert((a + b).drop_last() =~= a + b.drop_last());
        assert((a + b).last() == b.last());
        assert(terminated(a + b) =~= terminated(a) + terminated(b));
    }
}

/// Printing the header changes nothing but the header: a disassembler that
/// prints it fails exactly where one that does not (with the same layout)
/// fails, with the same error, and otherwise gives the header comments, each
/// ended by a line feed, followed by the other's text.
pub proof fn lemma_header_switch<F: Fn(u64, u32) -> String>(
    with_header: Disassembler,
    without_header: Disassembler,
    ws: Seq<u32>,
    tys: Map<u32, Type>,
    names: Map<u32, String>,
    isa: InstructionSet,
    f: F,
)
    requires
        with_header.spec_print_header(),
        !without_header.spec_print_header(),
        with_header.spec_indent() == without_header.spec_indent(),
    ensures
        disassembly_text(with_header, ws, tys, names, isa, f) == match disassembly_text(
            without_header,
            ws,
            tys,
            names,
            isa,
            f,
        ) {
            Ok(t) => Ok::<Seq<char>, Error>(terminated(header_lines_spec(header_of(ws))) + t),
            Err(e) => Err(e),
        },
{
    let header = header_lines_spec(header_of(ws));
    match spec_load(ws.skip(HEADER_LEN as int)) {
        Err(e) => {},
        Ok((c, rest)) => match lines_text(c, rest, tys, names, isa, f) {
            Err(e) => {},
            Ok(ls) => {
                let laid = laid_out(with_header, ls);
                assert(laid == laid_out(without_header, ls));
                assert(Seq::<Seq<char>>::empty() + laid =~= laid);
                lemma_joined_terminated(header + laid);
                lemma_joined_terminated(laid);
                lemma_terminated_concat(header, laid);
            },
        },
    }
}

impl Disassembler {
    /// The value of an `OpConstant` with result type `result_type_id`: a
    /// space and the number, read from the value words by the scalar type
    /// registered for the id. The words are taken from `operands` only when
    /// the value is printed. A floating-point value is printed by
    /// `float_text`, given its bits and width.
    pub fn print_constant_op_operand<F: Fn(u64, u32) -> String>(
        &self,
        result_type_id: Option<u32>,
        operands: &mut Operands,
        ty_reg: &TypeRegistry,
        float_text: &F,
    ) -> (r: Result<String, Error>)
        requires
            prints_floats(*float_text),
        ensures
            match constant_operand_text(result_type_id, old(operands)@, ty_reg@, *float_text) {
                Ok((t, n)) => r matches Ok(x) && x@ == t && final(operands)@ == old(operands)@.skip(
                    n as int,
                ),
                Err(e) => r == Err::<String, Error>(e) && final(operands)@ == old(operands)@,
            },
    {
        let mut operands2 = *operands;
        let tid = match result_type_id {
            Some(t) => t,
            None => return Err(Error::ExpectedResultTypeId(OP_CONSTANT)),
        };
        let ty = ty_reg.get(tid)?;
        let out = match ty {
            Type::Scalar(s) => print_scalar_constant(s, &mut operands2, float_text)?,
            _ => return Err(Error::UnsupportedConstantType),
        };
        *operands = operands2;
        Ok(out)
    }

    /// The line of assembly for one instruction: the result id and `=`, the
    /// instruction's name, the result type, the value of a constant, then the
    /// other operands.
    #[verifier::rlimit(30)]
    pub fn print_line<F: Fn(u64, u32) -> String>(
        &self,
        instr: &Instr,
        ty_reg: &TypeRegistry,
        id_names: &HashMap<u32, String>,
        isa: &InstructionSet,
        float_text: &F,
    ) -> (r: Result<String, Error>)
        requires
            prints_floats(*float_text),
        ensures
            match line_text(instr@, ty_reg@, id_names@, *isa, *float_text) {
                Ok(t) => r matches Ok(x) && x@ == t,
                Err(e) => r == Err::<String, Error>(e),
            },
    {
        let mut operands = instr.operands();
        let opcode = instr.opcode();
        let result_type_id = if op_has_result_type_id(isa, opcode)? {
            Some(operands.read_id()?)
        } else {
            None
        };
        let result_id = if op_has_result_id(isa, opcode)? {
            Some(operands.read_id()?)
        } else {
            None
        };
        let mut out = String::new();
        match result_id {
            Some(id) => {
                let s = self.print_id(id, id_names);
                push_str(&mut out, s.as_str());
                push_str(&mut out, " = ");
            },
            None => {},
        }
        let name = op_to_str(isa, opcode)?;
        push_str(&mut out, name);
        match result_type_id {
            Some(id) => {
                push_char(&mut out, ' ');
                let s = self.print_id(id, id_names);
                push_str(&mut out, s.as_str());
            },
            None => {},
        }
        let ghost head = out@;
        if opcode == OP_CONSTANT {
            match self.print_constant_op_operand(result_type_id, &mut operands, ty_reg, float_text) {
                Ok(s) => push_str(&mut out, s.as_str()),
                Err(_) => {},
            }
        }
        let printed = print_operand(opcode, &mut operands, &isa.enums, float_text)?;
        let joined_text = join_strings(&printed, " ");
        if !joined_text.as_str().is_empty() {
            push_char(&mut out, ' ');
            push_str(&mut out, joined_text.as_str());
        }
        proof {
            assert(" = "@ =~= seq![' ', '=', ' ']) by {
                reveal_strlit(" = ");
            }
            assert(" "@ =~= seq![' ']) by {
                reveal_strlit(" ");
            }
        }
        Ok(out)
    }

    /// The lines of assembly for the instructions that `instrs` yields, in
    /// order.
    pub fn print_lines<F: Fn(u64, u32) -> String>(
        &self,
        instrs: &mut Instrs,
        ty_reg: &TypeRegistry,
        id_names: &HashMap<u32, String>,
        isa: &InstructionSet,
        float_text: &F,
    ) -> (r: Result<Vec<String>, Error>)
        requires
            prints_floats(*float_text),
        ensures
            match lines_text(old(instrs).cached(), old(instrs).rest(), ty_reg@, id_names@, *isa, *float_text) {
                Ok(ls) => r matches Ok(v) && texts(v@) == ls,
                Err(e) => r == Err::<Vec<String>, Error>(e),
            },
    {
        let mut out: Vec<String> = Vec::new();
        let ghost c0 = instrs.cached();
        let ghost r0 = instrs.rest();
        loop
            invariant
                c0 == old(instrs).cached(),
                r0 == old(instrs).rest(),
                prints_floats(*float_text),
                lines_text(c0, r0, ty_reg@, id_names@, *isa, *float_text) == match lines_text(
                    instrs.cached(),
                    instrs.rest(),
                    ty_reg@,
                    id_names@,
                    *isa, *float_text,
                ) {
                    Ok(ls) => Ok(texts(out@) + ls),
                    Err(e) => Err::<Seq<Seq<char>>, Error>(e),
                },
            decreases instrs.rest().len(), if instrs.cached() is Some {
                1nat
            } else {
                0nat
            },
        {
            let ghost c = instrs.cached();
            let ghost rs = instrs.rest();
            proof {
                lemma_load_shrinks(rs);
            }
            let next = instrs.next();
            let instr = match next {
                Err(e) => {
                    return Err(e);
                },
                Ok(None) => {
                    assert(texts(out@) + Seq::<Seq<char>>::empty() =~= texts(out@));
                    return Ok(out);
                },
                Ok(Some(i)) => i,
            };
            let line = match self.print_line(&instr, ty_reg, id_names, isa, float_text) {
                Ok(l) => l,
                Err(e) => {
                    return Err(e);
                },
            };
            let ghost prev = texts(out@);
            out.push(line);
            proof {
                assert(texts(out@) =~= prev.push(line@));
                match lines_text(instrs.cached(), instrs.rest(), ty_reg@, id_names@, *isa, *float_text) {
                    Ok(ls) => {
                        assert(prev + (seq![line@] + ls) =~= texts(out@) + ls);
                    },
                    Err(_) => {},
                }
            }
        }
    }
}

impl Disassembler {
    /// Disassemble a module into SPIR-V assembly, given the types declared
    /// in it and the names to print ids by.
    pub fn disassemble<F: Fn(u64, u32) -> String>(
        &self,
        spv: &SpirvBinary,
        ty_reg: &TypeRegistry,
        id_names: &HashMap<u32, String>,
        isa: &InstructionSet,
        float_text: &F,
    ) -> (r: Result<String, Error>)
        requires
            spv@.len() >= HEADER_LEN,
            prints_floats(*float_text),
        ensures
            match disassembly_text(*self, spv@, ty_reg@, id_names@, *isa, *float_text) {
                Ok(t) => r matches Ok(x) && x@ == t,
                Err(e) => r == Err::<String, Error>(e),
            },
    {
        let mut out: Vec<String> = Vec::new();
        match spv.header() {
            Some(h) => {
                out = self.header_lines(&h);
            },
            None => {},
        }
        let mut instrs = spv.instrs()?;
        let lines = self.print_lines(&mut instrs, ty_reg, id_names, isa, float_text)?;
        let ghost ls = texts(lines@);
        let lines = self.indent_lines(lines);
        let ghost header = lines_view(out@);
        let ghost laid = texts(lines@);
        proof {
            assert(laid =~= laid_out(*self, ls));
        }
        let mut lines = lines;
        out.append(&mut lines);
        out.push(String::new());
        proof {
            assert(texts(out@) =~= header + laid + seq![Seq::<char>::empty()]);
        }
        let r = join_strings(&out, "\n");
        proof {
            assert("\n"@ =~= seq!['\n']) by {
                reveal_strlit("\n");
            }
        }
        Ok(r)
    }
}

} // verus!
