//! Printers of instruction operands in SPIR-V assembly.
use vstd::prelude::*;

use crate::error::Error;
use crate::parse::instr::{str_bytes, str_end, Operands};
use crate::parse::words::{decode_utf8, valid_utf8};
use crate::text::{dec_chars, push_char, push_dec, push_str};

verus! {

/// An id as it is printed: `%` and its number.
pub open spec fn id_text(x: u32) -> Seq<char> {
    seq!['%'] + dec_chars(x as nat)
}

/// A number as it is printed: its decimal digits.
pub open spec fn u32_text(x: u32) -> Seq<char> {
    dec_chars(x as nat)
}

/// A word printed as an id or as a number.
pub open spec fn word_text(x: u32, is_id: bool) -> Seq<char> {
    if is_id {
        id_text(x)
    } else {
        u32_text(x)
    }
}

/// The pairs of words printed as `a b`, each as an id or a number.
pub open spec fn pair_texts(ws: Seq<u32>, a_id: bool, b_id: bool) -> Seq<Seq<char>> {
    Seq::new(
        ws.len() / 2,
        |i: int| word_text(ws[2 * i], a_id) + seq![' '] + word_text(ws[2 * i + 1], b_id),
    )
}

/// The views of a vector of strings.
pub open spec fn texts(v: Seq<String>) -> Seq<Seq<char>> {
    v.map_values(|s: String| s@)
}

fn word_string(x: u32, is_id: bool) -> (r: String)
    ensures
        r@ == word_text(x, is_id),
{
    let mut s = String::new();
    if is_id {
        push_char(&mut s, '%');
    }
    push_dec(&mut s, x as u64);
    s
}

/// Print the next operand as an id.
pub fn print_id(operands: &mut Operands) -> (r: Result<String, Error>)
    ensures
        old(operands)@.len() > 0 ==> (r matches Ok(s) && s@ == id_text(old(operands)@[0])
            && final(operands)@ == old(operands)@.drop_first()),
        old(operands)@.len() == 0 ==> r == Err::<String, Error>(Error::OperandTooShort),
{
    let x = operands.read_u32()?;
    Ok(word_string(x, true))
}

/// Print the next operand as a number.
pub fn print_u32(operands: &mut Operands) -> (r: Result<String, Error>)
    ensures
        old(operands)@.len() > 0 ==> (r matches Ok(s) && s@ == u32_text(old(operands)@[0])
            && final(operands)@ == old(operands)@.drop_first()),
        old(operands)@.len() == 0 ==> r == Err::<String, Error>(Error::OperandTooShort),
{
    let x = operands.read_u32()?;
    Ok(word_string(x, false))
}

/// Print the next operand as a string literal in double quotes.
pub fn print_str(operands: &mut Operands) -> (r: Result<String, Error>)
    ensures
        match str_end(old(operands)@) {
            None => r == Err::<String, Error>(Error::StringNotNullTerminated),
            Some(k) => {
                let b = str_bytes(old(operands)@.take(k + 1));
                &&& final(operands)@ == old(operands)@.skip(k + 1)
                &&& valid_utf8(b) ==> (r matches Ok(s) && s@ == seq!['"'] + decode_utf8(b) + seq![
                    '"',
                ])
                &&& !valid_utf8(b) ==> r == Err::<String, Error>(Error::InvalidUtf8)
            },
        },
{
    let s = operands.read_str()?;
    let mut out = String::new();
    push_char(&mut out, '"');
    push_str(&mut out, s.as_str());
    push_char(&mut out, '"');
    Ok(out)
}

/// Print all the remaining operands as numbers.
pub fn print_list(operands: &mut Operands) -> (r: Result<Vec<String>, Error>)
    ensures
        r matches Ok(v) && texts(v@) == old(operands)@.map_values(|x: u32| u32_text(x)),
        final(operands)@.len() == 0,
{
    let ws = operands.read_list()?;
    let mut out: Vec<String> = Vec::new();
    let mut i: usize = 0;
    while i < ws.len()
        invariant
            i <= ws@.len(),
            out@.len() == i,
            texts(out@) == ws@.take(i as int).map_values(|x: u32| u32_text(x)),
        decreases ws@.len() - i,
    {
        let ghost prev = out@;
        let w = word_string(ws[i], false);
        out.push(w);
        proof {
            let target = ws@.take(i + 1).map_values(|x: u32| u32_text(x));
            assert forall|j: int| 0 <= j < i + 1 implies texts(out@)[j] == target[j] by {
                if j < i {
                    assert(out@[j] == prev[j]);
                    assert(texts(prev)[j] == ws@.take(i as int).map_values(|x: u32| u32_text(x))[j]);
                }
            }
            assert(texts(out@) =~= target);
        }
        i = i + 1;
    }
    assert(ws@.take(ws@.len() as int) =~= ws@);
    Ok(out)
}

/// Print all the remaining operands in pairs `a b`, each as an id or a
/// number; an odd count does not pair up.
fn print_pairs(operands: &mut Operands, a_id: bool, b_id: bool) -> (r: Result<Vec<String>, Error>)
    ensures
        final(operands)@.len() == 0,
        old(operands)@.len() % 2 == 0 ==> (r matches Ok(v) && texts(v@) == pair_texts(old(operands)@, a_id, b_id)),
        old(operands)@.len() % 2 == 1 ==> r == Err::<Vec<String>, Error>(Error::UnpairedOperands),
{
    let ws = operands.read_list()?;
    let mut out: Vec<String> = Vec::new();
    let mut i: usize = 0;
    while i + 1 < ws.len()
        invariant
            i % 2 == 0,
            i <= ws@.len(),
            out@.len() == i / 2,
            texts(out@) == pair_texts(ws@, a_id, b_id).take(i as int / 2),
        decreases ws@.len() - i,
    {
        let mut seg = word_string(ws[i], a_id);
        push_char(&mut seg, ' ');
        let b = word_string(ws[i + 1], b_id);
        push_str(&mut seg, b.as_str());
        let ghost prev = out@;
        out.push(seg);
        proof {
            let target = pair_texts(ws@, a_id, b_id).take((i + 2) as int / 2);
            assert((i + 2) as int / 2 == i as int / 2 + 1);
            assert forall|j: int| 0 <= j < i / 2 + 1 implies texts(out@)[j] == target[j] by {
                if j < i / 2 {
                    assert(out@[j] == prev[j]);
                    assert(texts(prev)[j] == pair_texts(ws@, a_id, b_id).take(i as int / 2)[j]);
                } else {
                    assert(2 * j == i);
                }
            }
            assert(texts(out@) =~= target);
        }
        i = i + 2;
    }
    if i < ws.len() {
        return Err(Error::UnpairedOperands);
    }
    assert(pair_texts(ws@, a_id, b_id).take(i as int / 2) =~= pair_texts(ws@, a_id, b_id));
    Ok(out)
}

/// Print all the remaining operands in pairs of ids, `%a %b`.
pub fn print_pair_id_id_list(operands: &mut Operands) -> (r: Result<Vec<String>, Error>)
    ensures
        final(operands)@.len() == 0,
        old(operands)@.len() % 2 == 0 ==> (r matches Ok(v) && texts(v@) == pair_texts(old(operands)@, true, true)),
        old(operands)@.len() % 2 == 1 ==> r == Err::<Vec<String>, Error>(Error::UnpairedOperands),
{
    print_pairs(operands, true, true)
}

/// Print all the remaining operands in pairs of an id and a number, `%a b`.
pub fn print_pair_id_u32_list(operands: &mut Operands) -> (r: Result<Vec<String>, Error>)
    ensures
        final(operands)@.len() == 0,
        old(operands)@.len() % 2 == 0 ==> (r matches Ok(v) && texts(v@) == pair_texts(old(operands)@, true, false)),
        old(operands)@.len() % 2 == 1 ==> r == Err::<Vec<String>, Error>(Error::UnpairedOperands),
{
    print_pairs(operands, true, false)
}

/// Print all the remaining operands in pairs of a number and an id, `a %b`.
pub fn print_pair_u32_id_list(operands: &mut Operands) -> (r: Result<Vec<String>, Error>)
    ensures
        final(operands)@.len() == 0,
        old(operands)@.len() % 2 == 0 ==> (r matches Ok(v) && texts(v@) == pair_texts(old(operands)@, false, true)),
        old(operands)@.len() % 2 == 1 ==> r == Err::<Vec<String>, Error>(Error::UnpairedOperands),
{
    print_pairs(operands, false, true)
}

} // verus!
