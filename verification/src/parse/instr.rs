//! SPIR-V instruction stream reader and instruction builder.
use vstd::prelude::*;
use vstd::slice::{slice_subrange, slice_to_vec};

use crate::error::Error;
use crate::parse::words::{decode_utf8, le_bytes, le_bytes_of, pack_str, string_words, take_until_nul, until_nul, utf8_to_string, valid_utf8};

verus! {

/// Opcode of `OpNop`.
pub const OP_NOP: u32 = 0;

/// Number of words an instruction claims in its first word (the high 16 bits).
pub open spec fn claimed_len(first: u32) -> int {
    (first >> 16u32) as int
}

/// The opcode held in the low 16 bits of an instruction's first word.
pub open spec fn opcode_of(first: u32) -> u32 {
    first & 0xffffu32
}

/// What loading the next instruction of `words` gives: the instruction (if a
/// complete one starts the stream) and the words that remain.
///
/// A claimed length of zero is an error. A claimed length longer than the
/// stream ends the stream without error.
pub open spec fn spec_load(words: Seq<u32>) -> Result<(Option<Seq<u32>>, Seq<u32>), Error> {
    if words.len() == 0 {
        Ok((None, words))
    } else if claimed_len(words[0]) == 0 {
        Err(Error::ZeroLengthInstruction)
    } else if claimed_len(words[0]) <= words.len() {
        Ok((Some(words.take(claimed_len(words[0]))), words.skip(claimed_len(words[0]))))
    } else {
        Ok((None, words))
    }
}

/// The whole list of instructions that reading `words` yields, in order.
pub open spec fn decode_instrs(words: Seq<u32>) -> Result<Seq<Seq<u32>>, Error>
    decreases words.len(),
{
    match spec_load(words) {
        Err(e) => Err(e),
        Ok((None, _)) => Ok(Seq::empty()),
        Ok((Some(instr), rest)) => {
            if rest.len() < words.len() {
                match decode_instrs(rest) {
                    Ok(tail) => Ok(seq![instr] + tail),
                    Err(e) => Err(e),
                }
            } else {
                Err(Error::ZeroLengthInstruction)
            }
        },
    }
}

/// How much of a stream is left: its words, and one for an instruction
/// loaded ahead.
pub open spec fn stream_measure(c: Option<Seq<u32>>, rest: Seq<u32>) -> nat {
    rest.len() + if c is Some {
        1nat
    } else {
        0nat
    }
}

/// Taking instructions from a stream with `c` loaded ahead of `rest` until
/// one that is not `OpNop`: that instruction (none at the end of the
/// stream), the instruction then loaded ahead and the words after it.
pub open spec fn skip_nops(c: Option<Seq<u32>>, rest: Seq<u32>) -> Result<
    (Option<Seq<u32>>, Option<Seq<u32>>, Seq<u32>),
    Error,
>
    decreases stream_measure(c, rest),
{
    match spec_load(rest) {
        Err(e) => Err(e),
        Ok((c2, r2)) => match c {
            None => Ok((None, c2, r2)),
            Some(w) => if opcode_of(w[0]) != OP_NOP {
                Ok((Some(w), c2, r2))
            } else if stream_measure(c2, r2) < stream_measure(c, rest) {
                skip_nops(c2, r2)
            } else {
                Ok((None, c2, r2))
            },
        },
    }
}

/// Loading an instruction takes at least one word.
proof fn lemma_load_shrinks(words: Seq<u32>)
    ensures
        spec_load(words) matches Ok((c, r)) ==> stream_measure(c, r) <= words.len(),
{
}

/// A single instruction: a view of the words it occupies. It always holds at
/// least one word.
#[derive(Clone, Copy)]
pub struct Instr<'a> {
    inner: &'a [u32],
}

impl<'a> View for Instr<'a> {
    type V = Seq<u32>;

    closed spec fn view(&self) -> Seq<u32> {
        self.inner@
    }
}

impl<'a> Instr<'a> {
    #[verifier::type_invariant]
    closed spec fn non_empty(self) -> bool {
        self.inner@.len() >= 1
    }

    /// Wrap the words of one instruction.
    pub fn new(x: &'a [u32]) -> (r: Result<Instr<'a>, Error>)
        ensures
            match r {
                Ok(instr) => x@.len() >= 1 && instr@ == x@,
                Err(e) => x@.len() == 0 && e == Error::InstructionTooShort,
            },
    {
        if x.len() >= 1 {
            Ok(Instr { inner: x })
        } else {
            Err(Error::InstructionTooShort)
        }
    }

    /// Get the instruction opcode.
    pub fn opcode(&self) -> (r: u32)
        ensures
            self@.len() >= 1,
            r == opcode_of(self@[0]),
    {
        proof {
            use_type_invariant(self);
        }
        self.inner[0] & 0xFFFF
    }

    /// Get the word count of the instruction, including the first word
    /// containing the word count and opcode.
    pub fn word_count(&self) -> (r: usize)
        ensures
            r == self@.len(),
    {
        self.inner.len()
    }

    /// Get an instruction operand reader over the words after the first.
    pub fn operands(&self) -> (r: Operands<'a>)
        ensures
            self@.len() >= 1,
            r@ == self@.skip(1),
    {
        proof {
            use_type_invariant(self);
        }
        Operands(slice_subrange(self.inner, 1, self.inner.len()))
    }

    /// The words of the instruction.
    pub fn as_words(&self) -> (r: &'a [u32])
        ensures
            r@ == self@,
    {
        self.inner
    }

    /// An owned copy of the instruction.
    pub fn to_owned(&self) -> (r: Instruction)
        ensures
            r@ == self@,
    {
        Instruction { inner: slice_to_vec(self.inner) }
    }
}

/// A reader over a stream of instructions. One instruction is always loaded
/// ahead.
pub struct Instrs<'a> {
    inner: &'a [u32],
    cache: Option<Instr<'a>>,
}

/// The words of an optional instruction.
pub open spec fn instr_words<'a>(i: Option<Instr<'a>>) -> Option<Seq<u32>> {
    match i {
        Some(x) => Some(x@),
        None => None,
    }
}

impl<'a> Instrs<'a> {
    /// The instruction loaded ahead, if any.
    pub closed spec fn cached(self) -> Option<Seq<u32>> {
        instr_words(self.cache)
    }

    /// The words that follow the instruction loaded ahead.
    pub closed spec fn rest(self) -> Seq<u32> {
        self.inner@
    }

    /// Create a reader over `spv` and load its first instruction.
    pub fn new(spv: &'a [u32]) -> (r: Result<Instrs<'a>, Error>)
        ensures
            match r {
                Ok(it) => spec_load(spv@) == Ok::<_, Error>((it.cached(), it.rest())),
                Err(e) => spec_load(spv@) == Err::<(Option<Seq<u32>>, Seq<u32>), _>(e),
            },
    {
        let mut out = Instrs { inner: spv, cache: None };
        match out.load_next() {
            Ok(()) => Ok(out),
            Err(e) => Err(e),
        }
    }

    fn load_next(&mut self) -> (r: Result<(), Error>)
        ensures
            match r {
                Ok(()) => spec_load(old(self).rest()) == Ok::<_, Error>(
                    (final(self).cached(), final(self).rest()),
                ),
                Err(e) => spec_load(old(self).rest()) == Err::<(Option<Seq<u32>>, Seq<u32>), _>(e)
                    && final(self).cached() == old(self).cached() && final(self).rest() == old(self).rest(),
            },
    {
        let mut new_cache = None;
        if self.inner.len() > 0 {
            let head = self.inner[0];
            let len = (head >> 16) as usize;
            if len == 0 {
                return Err(Error::ZeroLengthInstruction);
            }
            if len <= self.inner.len() {
                let (first, rest) = self.inner.split_at(len);
                let instr = Instr { inner: first };
                self.inner = rest;
                new_cache = Some(instr);
                assert(first@ == old(self).rest().take(len as int));
                assert(rest@ == old(self).rest().skip(len as int));
            }
        }
        self.cache = new_cache;
        Ok(())
    }

    /// The instruction loaded ahead, without consuming it.
    pub fn peek(&self) -> (r: Option<Instr<'a>>)
        ensures
            instr_words(r) == self.cached(),
    {
        self.cache
    }

    /// Take the instruction loaded ahead and load the one after it.
    pub fn next(&mut self) -> (r: Result<Option<Instr<'a>>, Error>)
        ensures
            match r {
                Ok(instr) => instr_words(instr) == old(self).cached() && spec_load(old(self).rest())
                    == Ok::<_, Error>((final(self).cached(), final(self).rest())),
                Err(e) => spec_load(old(self).rest()) == Err::<(Option<Seq<u32>>, Seq<u32>), _>(e)
                    && final(self).cached() is None && final(self).rest() == old(self).rest(),
            },
    {
        let last_cache = self.cache.take();
        match self.load_next() {
            Ok(()) => Ok(last_cache),
            Err(e) => Err(e),
        }
    }

    /// Take instructions until one that is not `OpNop`.
    pub fn next_non_nop(&mut self) -> (r: Result<Option<Instr<'a>>, Error>)
        ensures
            match skip_nops(old(self).cached(), old(self).rest()) {
                Ok((i, c2, r2)) => r matches Ok(x) && instr_words(x) == i && final(self).cached() == c2
                    && final(self).rest() == r2,
                Err(e) => r == Err::<Option<Instr<'a>>, Error>(e),
            },
    {
        loop
            invariant
                skip_nops(self.cached(), self.rest()) == skip_nops(old(self).cached(), old(self).rest()),
            decreases stream_measure(self.cached(), self.rest()),
        {
            proof {
                lemma_load_shrinks(self.rest());
            }
            match self.next() {
                Err(e) => {
                    return Err(e);
                },
                Ok(None) => {
                    return Ok(None);
                },
                Ok(Some(instr)) => {
                    if instr.opcode() != OP_NOP {
                        return Ok(Some(instr));
                    }
                },
            }
        }
    }
}

/// An owned instruction.
#[derive(Debug, Clone)]
pub struct Instruction {
    inner: Vec<u32>,
}

impl View for Instruction {
    type V = Seq<u32>;

    closed spec fn view(&self) -> Seq<u32> {
        self.inner@
    }
}

impl From<Vec<u32>> for Instruction {
    fn from(x: Vec<u32>) -> (r: Instruction)
        ensures
            r@ == x@,
    {
        Instruction { inner: x }
    }
}

impl vstd::std_specs::convert::FromSpecImpl<Vec<u32>> for Instruction {
    open spec fn obeys_from_spec() -> bool {
        true
    }

    closed spec fn from_spec(v: Vec<u32>) -> Instruction {
        Instruction { inner: v }
    }
}

impl Instruction {
    /// Start building an instruction with the given opcode.
    pub fn builder(opcode: u32) -> (r: InstructionBuilder)
        ensures
            r@ == seq![opcode & 0xffffu32],
    {
        InstructionBuilder::new(opcode)
    }

    /// The words of the instruction.
    pub fn into_words(self) -> (r: Vec<u32>)
        ensures
            r@ == self@,
    {
        self.inner
    }

    /// The words of the instruction.
    pub fn as_words(&self) -> (r: &[u32])
        ensures
            r@ == self@,
    {
        self.inner.as_slice()
    }

    /// Borrow the instruction for reading. The instruction must hold a word.
    pub fn as_instr(&self) -> (r: Instr<'_>)
        requires
            self@.len() >= 1,
        ensures
            r@ == self@,
    {
        Instr { inner: self.inner.as_slice() }
    }
}

/// Builder of an instruction: the opcode word followed by operand words.
pub struct InstructionBuilder {
    inner: Vec<u32>,
}

impl View for InstructionBuilder {
    type V = Seq<u32>;

    closed spec fn view(&self) -> Seq<u32> {
        self.inner@
    }
}

/// The first word of a built instruction: the claimed word count in the high
/// 16 bits (truncated to 16 bits) over the first word of the builder.
pub open spec fn header_word(first: u32, len: nat) -> u32 {
    first | (((len as u32) << 16u32) as u32)
}

/// The words that `InstructionBuilder::build` makes of the builder's words.
pub open spec fn built_words(ws: Seq<u32>) -> Seq<u32> {
    ws.update(0, header_word(ws[0], ws.len()))
}

impl InstructionBuilder {
    #[verifier::type_invariant]
    closed spec fn non_empty(self) -> bool {
        self.inner@.len() >= 1
    }

    /// Start an instruction with the given opcode.
    pub fn new(opcode: u32) -> (r: InstructionBuilder)
        ensures
            r@ == seq![opcode & 0xffffu32],
    {
        let mut inner = Vec::new();
        inner.push(opcode & 0xFFFF);
        InstructionBuilder { inner }
    }

    /// Append one operand word.
    pub fn push(self, x: u32) -> (r: Self)
        ensures
            r@ == self@.push(x),
    {
        proof {
            use_type_invariant(&self);
        }
        let mut inner = self.inner;
        inner.push(x);
        InstructionBuilder { inner }
    }

    /// Append operand words.
    pub fn push_list(self, x: &[u32]) -> (r: Self)
        ensures
            r@ == self@ + x@,
    {
        proof {
            use_type_invariant(&self);
        }
        let mut inner = self.inner;
        let ghost old_inner = inner@;
        inner.extend_from_slice(x);
        assert(inner@ =~= old_inner + x@);
        InstructionBuilder { inner }
    }

    /// Append a string operand: its UTF-8 bytes, a terminating NUL and zero
    /// padding up to a whole word, packed little-endian. The string must not
    /// hold a NUL character.
    pub fn push_str(self, x: &str) -> (r: Self)
        requires
            !x@.contains('\0'),
        ensures
            r@ == self@ + pack_str(x@),
    {
        proof {
            use_type_invariant(&self);
        }
        let words = string_words(x);
        let mut inner = self.inner;
        let ghost old_inner = inner@;
        inner.extend_from_slice(words.as_slice());
        assert(inner@ =~= old_inner + pack_str(x@));
        InstructionBuilder { inner }
    }

    /// Finish the instruction: put the word count in the high 16 bits of the
    /// first word.
    pub fn build(self) -> (r: Instruction)
        ensures
            self@.len() >= 1,
            r@ == built_words(self@),
    {
        proof {
            use_type_invariant(&self);
        }
        let mut inner = self.inner;
        let len = inner.len() as u32;
        let first = inner[0] | (len << 16);
        inner.set(0, first);
        Instruction { inner }
    }
}

/// A reader of instruction operands.
#[derive(Clone, Copy)]
pub struct Operands<'a>(&'a [u32]);

impl<'a> View for Operands<'a> {
    type V = Seq<u32>;

    closed spec fn view(&self) -> Seq<u32> {
        self.0@
    }
}

/// Index of the first word whose most significant byte is zero: the word that
/// ends a string operand.
pub open spec fn str_end(ws: Seq<u32>) -> Option<int>
    decreases ws.len(),
{
    if ws.len() == 0 {
        None
    } else if ws[0] >> 24u32 == 0 {
        Some(0)
    } else {
        match str_end(ws.drop_first()) {
            Some(i) => Some(i + 1),
            None => None,
        }
    }
}

/// The bytes a string operand stands for: the little-endian bytes of its words
/// up to the first NUL.
pub open spec fn str_bytes(ws: Seq<u32>) -> Seq<u8> {
    until_nul(le_bytes(ws))
}

impl<'a> Operands<'a> {
    /// Make a reader over the given words.
    pub fn new(ws: &'a [u32]) -> (r: Operands<'a>)
        ensures
            r@ == ws@,
    {
        Operands(ws)
    }

    /// Read a word as a boolean: true unless it is zero.
    pub fn read_bool(&mut self) -> (r: Result<bool, Error>)
        ensures
            old(self)@.len() > 0 ==> r == Ok::<bool, Error>(old(self)@[0] != 0) && final(self)@
                == old(self)@.drop_first(),
            old(self)@.len() == 0 ==> r == Err::<bool, Error>(Error::OperandTooShort)
                && final(self)@ == old(self)@,
    {
        match self.read_u32() {
            Ok(x) => Ok(x != 0),
            Err(e) => Err(e),
        }
    }

    /// Read one word.
    pub fn read_u32(&mut self) -> (r: Result<u32, Error>)
        ensures
            old(self)@.len() > 0 ==> r == Ok::<u32, Error>(old(self)@[0]) && final(self)@
                == old(self)@.drop_first(),
            old(self)@.len() == 0 ==> r == Err::<u32, Error>(Error::OperandTooShort)
                && final(self)@ == old(self)@,
    {
        if self.0.len() > 0 {
            let x = self.0[0];
            self.0 = slice_subrange(self.0, 1, self.0.len());
            assert(self.0@ =~= old(self)@.drop_first());
            Ok(x)
        } else {
            Err(Error::OperandTooShort)
        }
    }

    /// Read one word as an ID.
    pub fn read_id(&mut self) -> (r: Result<u32, Error>)
        ensures
            old(self)@.len() > 0 ==> r == Ok::<u32, Error>(old(self)@[0]) && final(self)@
                == old(self)@.drop_first(),
            old(self)@.len() == 0 ==> r == Err::<u32, Error>(Error::OperandTooShort)
                && final(self)@ == old(self)@,
    {
        self.read_u32()
    }

    /// Read a NUL-terminated UTF-8 string operand. The words up to and
    /// including the one that ends the string are consumed, also when the bytes
    /// are not valid UTF-8.
    pub fn read_str(&mut self) -> (r: Result<String, Error>)
        ensures
            match str_end(old(self)@) {
                None => r == Err::<String, Error>(Error::StringNotNullTerminated) && final(self)@
                    == old(self)@,
                Some(k) => {
                    &&& final(self)@ == old(self)@.skip(k + 1)
                    &&& valid_utf8(str_bytes(old(self)@.take(k + 1))) ==> r is Ok && r->Ok_0@
                        == decode_utf8(str_bytes(old(self)@.take(k + 1)))
                    &&& !valid_utf8(str_bytes(old(self)@.take(k + 1))) ==> r == Err::<
                        String,
                        Error,
                    >(Error::InvalidUtf8)
                },
            },
    {
        let mut i: usize = 0;
        assert(self.0@.skip(0) =~= self.0@);
        while i < self.0.len() && self.0[i] >> 24 != 0
            invariant
                0 <= i <= self.0@.len(),
                self.0@ == old(self)@,
                forall|j: int| 0 <= j < i ==> #[trigger] self.0@[j] >> 24u32 != 0,
                str_end(self.0@.skip(i as int)) matches Some(k) ==> str_end(self.0@) == Some(
                    k + i,
                ),
                str_end(self.0@.skip(i as int)) is None ==> str_end(self.0@) is None,
            decreases self.0@.len() - i,
        {
            assert(self.0@.skip(i as int).drop_first() =~= self.0@.skip(i + 1));
            i = i + 1;
        }
        if i == self.0.len() {
            assert(self.0@.skip(i as int) =~= Seq::<u32>::empty());
            return Err(Error::StringNotNullTerminated);
        }
        assert(self.0@.skip(i as int)[0] == self.0@[i as int]);
        assert(str_end(self.0@.skip(i as int)) == Some(0int));
        let (head, tail) = self.0.split_at(i + 1);
        self.0 = tail;
        let bytes = le_bytes_of(head);
        let content = take_until_nul(&bytes);
        match utf8_to_string(content.as_slice()) {
            Some(s) => Ok(s),
            None => Err(Error::InvalidUtf8),
        }
    }

    /// Read all the remaining words.
    pub fn read_list(&mut self) -> (r: Result<&'a [u32], Error>)
        ensures
            r is Ok && r->Ok_0@ == old(self)@,
            final(self)@.len() == 0,
    {
        let rv = self.0;
        self.0 = slice_subrange(self.0, self.0.len(), self.0.len());
        Ok(rv)
    }

    /// Read one word, if any.
    pub fn next(&mut self) -> (r: Option<u32>)
        ensures
            old(self)@.len() > 0 ==> r == Some(old(self)@[0]) && final(self)@ == old(self)@.drop_first(),
            old(self)@.len() == 0 ==> r is None && final(self)@ == old(self)@,
    {
        match self.read_u32() {
            Ok(x) => Some(x),
            Err(_) => None,
        }
    }

    /// Number of remaining words.
    pub fn len(&self) -> (r: usize)
        ensures
            r == self@.len(),
    {
        self.0.len()
    }

    /// Whether no word remains.
    pub fn is_empty(&self) -> (r: bool)
        ensures
            r == (self@.len() == 0),
    {
        self.0.len() == 0
    }
}

} // verus!
