//! Conversions between bytes and 32-bit words.
use vstd::prelude::*;

pub use vstd::utf8::{decode_utf8, encode_utf8, valid_utf8};

verus! {

/// Byte `k` (0 to 3, least significant first) of a word.
pub open spec fn byte_of(w: u32, k: int) -> u8 {
    if k == 0 {
        (w & 0xffu32) as u8
    } else if k == 1 {
        ((w >> 8u32) & 0xffu32) as u8
    } else if k == 2 {
        ((w >> 16u32) & 0xffu32) as u8
    } else {
        (w >> 24u32) as u8
    }
}

/// The bytes of the words, each word least significant byte first.
pub open spec fn le_bytes(ws: Seq<u32>) -> Seq<u8> {
    Seq::new(ws.len() * 4, |i: int| byte_of(ws[i / 4], i % 4))
}

/// The word whose bytes, least significant first, are `b0` to `b3`.
pub open spec fn le_word(b0: u8, b1: u8, b2: u8, b3: u8) -> u32 {
    (b0 + b1 * 256 + b2 * 65536 + b3 * 16777216) as u32
}

/// The word whose bytes, most significant first, are `b0` to `b3`.
pub open spec fn be_word(b0: u8, b1: u8, b2: u8, b3: u8) -> u32 {
    (b0 * 16777216 + b1 * 65536 + b2 * 256 + b3) as u32
}

/// Each whole group of four bytes read as a little-endian word; trailing bytes
/// that do not fill a word are dropped.
pub open spec fn le_words(b: Seq<u8>) -> Seq<u32> {
    Seq::new(b.len() / 4, |i: int| le_word(b[4 * i], b[4 * i + 1], b[4 * i + 2], b[4 * i + 3]))
}

/// Each whole group of four bytes read as a big-endian word; trailing bytes
/// that do not fill a word are dropped.
pub open spec fn be_words(b: Seq<u8>) -> Seq<u32> {
    Seq::new(b.len() / 4, |i: int| be_word(b[4 * i], b[4 * i + 1], b[4 * i + 2], b[4 * i + 3]))
}

/// The bytes before the first NUL byte (all of them if there is none).
pub open spec fn until_nul(b: Seq<u8>) -> Seq<u8>
    decreases b.len(),
{
    if b.len() == 0 {
        b
    } else if b[0] == 0 {
        Seq::empty()
    } else {
        seq![b[0]] + until_nul(b.drop_first())
    }
}

/// `b` followed by zero bytes up to a length that is a multiple of four and
/// greater than the length of `b`.
pub open spec fn nul_padded(b: Seq<u8>) -> Seq<u8> {
    b + Seq::new(((b.len() / 4 + 1) * 4 - b.len()) as nat, |i: int| 0u8)
}

/// The words of a string operand: its UTF-8 bytes, NUL-terminated and zero
/// padded to whole words, packed little-endian.
pub open spec fn pack_str(s: Seq<char>) -> Seq<u32> {
    le_words(nul_padded(encode_utf8(s)))
}

proof fn lemma_until_nul_take(b: Seq<u8>, i: int)
    requires
        0 <= i <= b.len(),
        forall|j: int| 0 <= j < i ==> b[j] != 0,
        i == b.len() || b[i] == 0,
    ensures
        until_nul(b) == b.take(i),
    decreases b.len(),
{
    if b.len() == 0 {
        assert(b.take(i) =~= b);
    } else if i == 0 {
        assert(b.take(i) =~= Seq::<u8>::empty());
    } else {
        assert forall|j: int| 0 <= j < i - 1 implies b.drop_first()[j] != 0 by {
            assert(b.drop_first()[j] == b[j + 1]);
        }
        if i < b.len() {
            assert(b.drop_first()[i - 1] == b[i]);
        }
        lemma_until_nul_take(b.drop_first(), i - 1);
        assert(b.take(i) =~= seq![b[0]] + b.drop_first().take(i - 1));
    }
}

/// The little-endian bytes of the words.
pub fn le_bytes_of(ws: &[u32]) -> (r: Vec<u8>)
    ensures
        r@ == le_bytes(ws@),
{
    let mut out: Vec<u8> = Vec::new();
    let mut i: usize = 0;
    while i < ws.len()
        invariant
            0 <= i <= ws@.len(),
            out@.len() == 4 * i,
            forall|j: int| 0 <= j < 4 * i ==> #[trigger] out@[j] == byte_of(ws@[j / 4], j % 4),
        decreases ws@.len() - i,
    {
        let w = ws[i];
        out.push((w & 0xff) as u8);
        out.push(((w >> 8) & 0xff) as u8);
        out.push(((w >> 16) & 0xff) as u8);
        out.push((w >> 24) as u8);
        assert forall|j: int| 0 <= j < 4 * (i + 1) implies #[trigger] out@[j] == byte_of(
            ws@[j / 4],
            j % 4,
        ) by {
            if j >= 4 * i {
                assert(j / 4 == i as int);
            }
        }
        i = i + 1;
    }
    assert(out@ =~= le_bytes(ws@));
    out
}

/// The bytes before the first NUL byte.
pub fn take_until_nul(b: &Vec<u8>) -> (r: Vec<u8>)
    ensures
        r@ == until_nul(b@),
{
    let mut out: Vec<u8> = Vec::new();
    let mut i: usize = 0;
    while i < b.len() && b[i] != 0
        invariant
            0 <= i <= b@.len(),
            out@ == b@.take(i as int),
            forall|j: int| 0 <= j < i ==> b@[j] != 0,
        decreases b@.len() - i,
    {
        out.push(b[i]);
        assert(out@ =~= b@.take(i + 1));
        i = i + 1;
    }
    proof {
        lemma_until_nul_take(b@, i as int);
    }
    out
}

/// Read each whole group of four bytes as a little-endian word.
pub fn le_words_of(b: &[u8]) -> (r: Vec<u32>)
    ensures
        r@ == le_words(b@),
{
    let n = b.len() / 4;
    let mut out: Vec<u32> = Vec::new();
    let mut i: usize = 0;
    while i < n
        invariant
            n == b@.len() / 4,
            0 <= i <= n,
            out@.len() == i,
            forall|j: int|
                0 <= j < i ==> #[trigger] out@[j] == le_word(
                    b@[4 * j],
                    b@[4 * j + 1],
                    b@[4 * j + 2],
                    b@[4 * j + 3],
                ),
        decreases n - i,
    {
        assert(4 * i + 3 < b@.len()) by (nonlinear_arith)
            requires
                i < n,
                n == b@.len() / 4,
        ;
        assert(b@.len() == b.len());
        let k = 4 * i;
        let w = (b[k] as u32) + (b[k + 1] as u32) * 256 + (b[k + 2] as u32) * 65536 + (b[k
            + 3] as u32) * 16777216;
        out.push(w);
        i = i + 1;
    }
    assert(out@ =~= le_words(b@));
    out
}

/// Read each whole group of four bytes as a big-endian word.
pub fn be_words_of(b: &[u8]) -> (r: Vec<u32>)
    ensures
        r@ == be_words(b@),
{
    let n = b.len() / 4;
    let mut out: Vec<u32> = Vec::new();
    let mut i: usize = 0;
    while i < n
        invariant
            n == b@.len() / 4,
            0 <= i <= n,
            out@.len() == i,
            forall|j: int|
                0 <= j < i ==> #[trigger] out@[j] == be_word(
                    b@[4 * j],
                    b@[4 * j + 1],
                    b@[4 * j + 2],
                    b@[4 * j + 3],
                ),
        decreases n - i,
    {
        assert(4 * i + 3 < b@.len()) by (nonlinear_arith)
            requires
                i < n,
                n == b@.len() / 4,
        ;
        assert(b@.len() == b.len());
        let k = 4 * i;
        let w = (b[k] as u32) * 16777216 + (b[k + 1] as u32) * 65536 + (b[k + 2] as u32) * 256
            + (b[k + 3] as u32);
        out.push(w);
        i = i + 1;
    }
    assert(out@ =~= be_words(b@));
    out
}

/// The words of a string operand made from `x`.
pub fn string_words(x: &str) -> (r: Vec<u32>)
    ensures
        r@ == pack_str(x@),
{
    let bytes = x.as_bytes();
    let ghost enc = encode_utf8(x@);
    assert(bytes@ == enc);
    let mut padded: Vec<u8> = Vec::new();
    let mut i: usize = 0;
    while i < bytes.len()
        invariant
            bytes@ == enc,
            0 <= i <= bytes@.len(),
            padded@ == bytes@.take(i as int),
        decreases bytes@.len() - i,
    {
        padded.push(bytes[i]);
        assert(padded@ =~= bytes@.take(i + 1));
        i = i + 1;
    }
    assert(padded@ =~= enc);
    padded.push(0u8);
    while padded.len() % 4 != 0
        invariant
            enc.len() < padded@.len() <= (enc.len() / 4 + 1) * 4,
            padded@.subrange(0, enc.len() as int) == enc,
            forall|j: int| enc.len() <= j < padded@.len() ==> padded@[j] == 0,
        decreases (enc.len() / 4 + 1) * 4 - padded@.len(),
    {
        padded.push(0u8);
    }
    assert(padded@.len() == (enc.len() / 4 + 1) * 4);
    assert(padded@ =~= nul_padded(enc));
    le_words_of(padded.as_slice())
}

/// The string that `b` encodes in UTF-8, if `b` is valid UTF-8.
///
/// Calls `core::str::from_utf8`, which by its documentation succeeds exactly
/// when the bytes are valid UTF-8 and then gives the string made of them.
#[verifier::external_body]
pub(crate) fn utf8_str(b: &[u8]) -> (r: Option<&str>)
    ensures
        r is Some <==> valid_utf8(b@),
        r matches Some(s) ==> s@ == decode_utf8(b@),
{
    core::str::from_utf8(b).ok()
}

/// The string that `b` encodes in UTF-8, if `b` is valid UTF-8.
pub fn utf8_to_string(b: &[u8]) -> (r: Option<String>)
    ensures
        r is Some <==> valid_utf8(b@),
        r matches Some(s) ==> s@ == decode_utf8(b@),
{
    match utf8_str(b) {
        Some(s) => Some(s.to_owned()),
        None => None,
    }
}

} // verus!
