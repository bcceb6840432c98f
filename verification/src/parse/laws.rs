//! Properties that tie the instruction builder, the instruction reader, the
//! string operand encoding and the byte image of a module together.
use vstd::prelude::*;

use crate::parse::bin::{header_of, words_from_bytes, SpirvHeader};
use crate::parse::instr::{
    built_words,
    claimed_len,
    decode_instrs,
    header_word,
    opcode_of,
    spec_load,
    str_bytes,
    str_end,
};
use crate::parse::words::{
    byte_of,
    decode_utf8,
    encode_utf8,
    le_bytes,
    le_word,
    le_words,
    nul_padded,
    pack_str,
    until_nul,
    valid_utf8,
};

verus! {

/// An instruction whose first word claims exactly its own length.
pub open spec fn well_formed_instr(w: Seq<u32>) -> bool {
    w.len() >= 1 && claimed_len(w[0]) == w.len()
}

/// The words of the instructions laid end to end.
pub open spec fn flatten(instrs: Seq<Seq<u32>>) -> Seq<u32>
    decreases instrs.len(),
{
    if instrs.len() == 0 {
        Seq::empty()
    } else {
        instrs[0] + flatten(instrs.drop_first())
    }
}

/// Building an instruction of fewer than 65536 words whose first word holds a
/// 16-bit opcode gives a well-formed instruction with that opcode and the
/// pushed operands.
pub proof fn lemma_built_instr(ws: Seq<u32>)
    requires
        1 <= ws.len() < 65536,
        ws[0] <= 0xffff,
    ensures
        built_words(ws).len() == ws.len(),
        well_formed_instr(built_words(ws)),
        opcode_of(built_words(ws)[0]) == ws[0],
        built_words(ws).skip(1) == ws.skip(1),
{
    let x = ws[0];
    let l = ws.len() as u32;
    assert(l as nat == ws.len());
    assert(((x | ((l << 16u32) as u32)) >> 16u32) == l && ((x | ((l << 16u32) as u32)) & 0xffffu32)
        == x) by (bit_vector)
        requires
            x <= 0xffff,
            l < 65536,
    ;
    assert(header_word(x, ws.len()) == x | ((l << 16u32) as u32));
    assert(built_words(ws).skip(1) =~= ws.skip(1));
}

/// Reading a stream of well-formed instructions laid end to end gives back
/// exactly those instructions.
pub proof fn lemma_decode_concat(instrs: Seq<Seq<u32>>)
    requires
        forall|i: int| 0 <= i < instrs.len() ==> well_formed_instr(#[trigger] instrs[i]),
    ensures
        decode_instrs(flatten(instrs)) == Ok::<Seq<Seq<u32>>, crate::error::Error>(instrs),
    decreases instrs.len(),
{
    let words = flatten(instrs);
    if instrs.len() == 0 {
        assert(spec_load(words) == Ok::<_, crate::error::Error>(
            (None::<Seq<u32>>, words),
        ));
        assert(instrs =~= Seq::<Seq<u32>>::empty());
    } else {
        let first = instrs[0];
        let tail = instrs.drop_first();
        assert forall|i: int| 0 <= i < tail.len() implies well_formed_instr(#[trigger] tail[i]) by {
            assert(tail[i] == instrs[i + 1]);
        }
        lemma_decode_concat(tail);
        assert(well_formed_instr(first));
        assert(words == first + flatten(tail));
        assert(words[0] == first[0]);
        assert(words.take(first.len() as int) =~= first);
        assert(words.skip(first.len() as int) =~= flatten(tail));
        assert(seq![first] + tail =~= instrs);
    }
}

/// Reading a stream of well-formed instructions laid end to end hands them
/// out one by one, in order, and none is skipped: after the first `k` have
/// been taken, loading from the words that remain gives instruction `k` and
/// the words of the instructions after it; once all are taken, loading gives
/// no instruction and no words.
pub proof fn lemma_load_partition(instrs: Seq<Seq<u32>>, k: int)
    requires
        forall|i: int| 0 <= i < instrs.len() ==> well_formed_instr(#[trigger] instrs[i]),
        0 <= k <= instrs.len(),
    ensures
        k < instrs.len() ==> spec_load(flatten(instrs.skip(k))) == Ok::<_, crate::error::Error>(
            (Some(instrs[k]), flatten(instrs.skip(k + 1))),
        ),
        k == instrs.len() ==> spec_load(flatten(instrs.skip(k))) == Ok::<_, crate::error::Error>(
            (None::<Seq<u32>>, Seq::<u32>::empty()),
        ),
{
    let tail = instrs.skip(k);
    if k == instrs.len() {
        assert(tail.len() == 0);
        assert(flatten(tail) =~= Seq::<u32>::empty());
    } else {
        let first = instrs[k];
        assert(well_formed_instr(first));
        assert(tail[0] == first);
        assert(tail.drop_first() =~= instrs.skip(k + 1));
        let words = flatten(tail);
        assert(words == first + flatten(instrs.skip(k + 1)));
        assert(words[0] == first[0]);
        assert(words.take(first.len() as int) =~= first);
        assert(words.skip(first.len() as int) =~= flatten(instrs.skip(k + 1)));
    }
}

/// The first five words of a header's words stand for that header.
pub proof fn lemma_header_roundtrip(h: SpirvHeader)
    ensures
        header_of(h.spec_words()) == h,
{
}

proof fn lemma_word_bytes(w: u32)
    ensures
        le_word(byte_of(w, 0), byte_of(w, 1), byte_of(w, 2), byte_of(w, 3)) == w,
{
    assert(((((w & 0xffu32) as u8) as int) + (((w >> 8u32) & 0xffu32) as u8) as int * 256 + ((
    (w >> 16u32) & 0xffu32) as u8) as int * 65536 + ((w >> 24u32) as u8) as int * 16777216) as u32
        == w) by (bit_vector);
}

proof fn lemma_bytes_word(b0: u8, b1: u8, b2: u8, b3: u8)
    ensures
        byte_of(le_word(b0, b1, b2, b3), 0) == b0,
        byte_of(le_word(b0, b1, b2, b3), 1) == b1,
        byte_of(le_word(b0, b1, b2, b3), 2) == b2,
        byte_of(le_word(b0, b1, b2, b3), 3) == b3,
{
    let w = le_word(b0, b1, b2, b3);
    assert(w == (b0 as int + b1 as int * 256 + b2 as int * 65536 + b3 as int * 16777216) as u32);
    assert({
        let w = (b0 as int + b1 as int * 256 + b2 as int * 65536 + b3 as int * 16777216) as u32;
        &&& (w & 0xffu32) as u8 == b0
        &&& ((w >> 8u32) & 0xffu32) as u8 == b1
        &&& ((w >> 16u32) & 0xffu32) as u8 == b2
        &&& (w >> 24u32) as u8 == b3
    }) by (bit_vector);
}

/// Reading the little-endian bytes of words back as words gives the words.
pub proof fn lemma_le_words_of_bytes(ws: Seq<u32>)
    ensures
        le_words(le_bytes(ws)) == ws,
{
    let b = le_bytes(ws);
    assert(b.len() / 4 == ws.len());
    assert forall|i: int| 0 <= i < ws.len() implies #[trigger] le_words(b)[i] == ws[i] by {
        assert((4 * i) / 4 == i && (4 * i + 1) / 4 == i && (4 * i + 2) / 4 == i && (4 * i + 3) / 4
            == i);
        assert((4 * i) % 4 == 0 && (4 * i + 1) % 4 == 1 && (4 * i + 2) % 4 == 2 && (4 * i + 3) % 4
            == 3);
        lemma_word_bytes(ws[i]);
    }
    assert(le_words(b) =~= ws);
}

/// Packing bytes (a whole number of words) into little-endian words and taking
/// their bytes back gives the bytes.
pub proof fn lemma_le_bytes_of_words(b: Seq<u8>)
    requires
        b.len() % 4 == 0,
    ensures
        le_bytes(le_words(b)) == b,
{
    let ws = le_words(b);
    assert(ws.len() * 4 == b.len());
    assert forall|j: int| 0 <= j < b.len() implies #[trigger] le_bytes(ws)[j] == b[j] by {
        let i = j / 4;
        assert(0 <= i < ws.len());
        assert(4 * i <= j < 4 * i + 4);
        lemma_bytes_word(b[4 * i], b[4 * i + 1], b[4 * i + 2], b[4 * i + 3]);
    }
    assert(le_bytes(ws) =~= b);
}

/// The byte image of a module whose first word starts with the little-endian
/// magic byte `0x03` reads back as the module's words.
pub proof fn lemma_bytes_roundtrip(ws: Seq<u32>)
    requires
        ws.len() > 0,
        byte_of(ws[0], 0) == 0x03,
    ensures
        words_from_bytes(le_bytes(ws)) == ws,
{
    lemma_le_words_of_bytes(ws);
    assert(le_bytes(ws)[0] == byte_of(ws[0], 0));
}

proof fn lemma_encode_no_nul(s: Seq<char>)
    requires
        !s.contains('\0'),
    ensures
        forall|i: int| 0 <= i < encode_utf8(s).len() ==> #[trigger] encode_utf8(s)[i] != 0,
    decreases s.len(),
{
    if s.len() > 0 {
        let c = s[0] as u32;
        assert(s[0] != '\0');
        vstd::utf8::char_u32_cast(s[0], c);
        assert(c != 0) by {
            if c == 0 {
                assert(s[0] == (0u32 as char));
                assert(('\0' as u32) == 0);
                vstd::utf8::char_u32_cast('\0', 0u32);
            }
        }
        vstd::utf8::char_is_scalar(s[0]);
        assert(s.drop_first().contains('\0') ==> s.contains('\0')) by {
            if s.drop_first().contains('\0') {
                let k = choose|k: int| 0 <= k < s.drop_first().len() && s.drop_first()[k] == '\0';
                assert(s[k + 1] == '\0');
            }
        }
        lemma_encode_no_nul(s.drop_first());
        let e = vstd::utf8::encode_scalar(c);
        assert(forall|i: int| 0 <= i < e.len() ==> #[trigger] e[i] != 0) by {
            assert(1 <= c <= 0x7f ==> (c & 0x7fu32) as u8 != 0) by (bit_vector);
            assert((0xc0u8 | ((c >> 6u32) & 0x1fu32) as u8) != 0) by (bit_vector);
            assert((0xe0u8 | ((c >> 12u32) & 0x0fu32) as u8) != 0) by (bit_vector);
            assert((0xf0u8 | ((c >> 18u32) & 0x7u32) as u8) != 0) by (bit_vector);
            assert((0x80u8 | (c & 0x3fu32) as u8) != 0) by (bit_vector);
            assert((0x80u8 | ((c >> 6u32) & 0x3fu32) as u8) != 0) by (bit_vector);
            assert((0x80u8 | ((c >> 12u32) & 0x3fu32) as u8) != 0) by (bit_vector);
        }
        let rest = encode_utf8(s.drop_first());
        assert(encode_utf8(s) == e + rest);
        assert forall|i: int| 0 <= i < encode_utf8(s).len() implies #[trigger] encode_utf8(s)[i]
            != 0 by {
            if i < e.len() {
                assert(encode_utf8(s)[i] == e[i]);
            } else {
                assert(encode_utf8(s)[i] == rest[i - e.len()]);
            }
        }
    }
}

proof fn lemma_until_nul_prefix(b: Seq<u8>, n: int)
    requires
        0 <= n < b.len(),
        forall|j: int| 0 <= j < n ==> b[j] != 0,
        b[n] == 0,
    ensures
        until_nul(b) == b.take(n),
    decreases b.len(),
{
    if n == 0 {
        assert(b.take(0) =~= Seq::<u8>::empty());
    } else {
        assert forall|j: int| 0 <= j < n - 1 implies b.drop_first()[j] != 0 by {
            assert(b.drop_first()[j] == b[j + 1]);
        }
        assert(b.drop_first()[n - 1] == b[n]);
        lemma_until_nul_prefix(b.drop_first(), n - 1);
        assert(b.take(n) =~= seq![b[0]] + b.drop_first().take(n - 1));
    }
}

proof fn lemma_str_end_at(ws: Seq<u32>, k: int)
    requires
        0 <= k < ws.len(),
        forall|j: int| 0 <= j < k ==> #[trigger] ws[j] >> 24u32 != 0,
        ws[k] >> 24u32 == 0,
    ensures
        str_end(ws) == Some(k),
    decreases k,
{
    if k > 0 {
        assert forall|j: int| 0 <= j < k - 1 implies #[trigger] ws.drop_first()[j] >> 24u32 != 0 by {
            assert(ws.drop_first()[j] == ws[j + 1]);
        }
        assert(ws.drop_first()[k - 1] == ws[k]);
        lemma_str_end_at(ws.drop_first(), k - 1);
    }
}

/// Top bytes of the words packed from a NUL-free string: non-zero in every
/// word but the last, zero in the last.
#[verifier::rlimit(40)]
#[verifier::spinoff_prover]
proof fn lemma_packed_top_bytes(s: Seq<char>)
    requires
        !s.contains('\0'),
    ensures
        pack_str(s).len() >= 1,
        le_bytes(pack_str(s)) == nul_padded(encode_utf8(s)),
        forall|j: int| 0 <= j < pack_str(s).len() - 1 ==> #[trigger] pack_str(s)[j] >> 24u32 != 0,
        pack_str(s)[pack_str(s).len() - 1] >> 24u32 == 0,
{
    let e = encode_utf8(s);
    let p = nul_padded(e);
    let ws = pack_str(s);
    let n = e.len() as int;
    lemma_encode_no_nul(s);
    assert(p.len() == (e.len() / 4 + 1) * 4);
    assert(p.len() % 4 == 0) by (nonlinear_arith)
        requires
            p.len() == (e.len() / 4 + 1) * 4,
    ;
    lemma_le_bytes_of_words(p);
    assert(ws.len() == p.len() / 4);
    let k = ws.len() - 1;
    assert forall|j: int| 0 <= j < k implies #[trigger] ws[j] >> 24u32 != 0 by {
        assert(le_bytes(ws)[4 * j + 3] == byte_of(ws[j], 3)) by {
            assert((4 * j + 3) / 4 == j && (4 * j + 3) % 4 == 3);
        }
        assert(4 * j + 3 < n);
        assert(p[4 * j + 3] == e[4 * j + 3]);
        let w = ws[j];
        assert((w >> 24u32) as u8 != 0 ==> w >> 24u32 != 0) by (bit_vector);
    }
    assert(le_bytes(ws)[4 * k + 3] == byte_of(ws[k], 3)) by {
        assert((4 * k + 3) / 4 == k && (4 * k + 3) % 4 == 3);
    }
    assert(4 * k + 3 >= n);
    assert(p[4 * k + 3] == 0);
    let w = ws[k];
    assert((w >> 24u32) as u8 == 0 ==> w >> 24u32 == 0) by (bit_vector);
}

/// Reading a string operand from the words that packing a NUL-free string
/// gives (followed by any words) ends at the last packed word and yields the
/// string.
#[verifier::rlimit(100)]
#[verifier::spinoff_prover]
pub proof fn lemma_str_roundtrip(s: Seq<char>, rest: Seq<u32>)
    requires
        !s.contains('\0'),
    ensures
        pack_str(s).len() >= 1,
        str_end(pack_str(s) + rest) == Some(pack_str(s).len() - 1),
        valid_utf8(str_bytes((pack_str(s) + rest).take(pack_str(s).len() as int))),
        decode_utf8(str_bytes((pack_str(s) + rest).take(pack_str(s).len() as int))) == s,
{
    let e = encode_utf8(s);
    let p = nul_padded(e);
    let ws = pack_str(s);
    let all = ws + rest;
    let n = e.len() as int;
    lemma_packed_top_bytes(s);
    lemma_encode_no_nul(s);
    let k = ws.len() - 1;
    assert(str_end(all) == Some(k)) by {
        assert forall|j: int| 0 <= j < k implies #[trigger] all[j] >> 24u32 != 0 by {
            assert(all[j] == ws[j]);
        }
        assert(all[k] == ws[k]);
        lemma_str_end_at(all, k);
    }
    assert(until_nul(p) == e) by {
        assert forall|j: int| 0 <= j < n implies p[j] != 0 by {
            assert(p[j] == e[j]);
        }
        assert(p[n] == 0);
        lemma_until_nul_prefix(p, n);
        assert(p.take(n) =~= e);
    }
    assert(str_bytes(all.take(ws.len() as int)) == e) by {
        assert(all.take(ws.len() as int) =~= ws);
    }
    vstd::utf8::encode_utf8_valid_utf8(s);
    vstd::utf8::encode_utf8_decode_utf8(s);
}

} // verus!
