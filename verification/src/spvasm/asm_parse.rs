//! Reading SPIR-V assembly text into instructions.
use vstd::prelude::*;

use crate::error::Error;
use crate::spvasm::assembler::{parse_u32, Assembler, IdRef, IdRefSpec, InstrSpec, Instruction, Operand, OperandSpec};
use crate::spvasm::isa::{op_by_name, op_from_str, InstructionSet};
use crate::spvasm::tokenizer::{lemma_lex_progress, lex, opt_view, Token, TokenSpec, Tokenizer};

verus! {

/// Reading the next token from `rest`: the token, if any, and the characters
/// after it.
pub open spec fn st_load(rest: Seq<char>) -> Result<(Option<TokenSpec>, Seq<char>), Error> {
    match lex(rest) {
        Err(e) => Err(e),
        Ok((t, n)) => Ok((t, rest.skip(n as int))),
    }
}

/// Taking the token `c` loaded ahead of `rest` and loading the next one:
/// the token taken, the token now loaded ahead and the characters after it.
pub open spec fn st_next(c: Option<TokenSpec>, rest: Seq<char>) -> Result<
    (Option<TokenSpec>, Option<TokenSpec>, Seq<char>),
    Error,
> {
    match st_load(rest) {
        Err(e) => Err(e),
        Ok((c2, r2)) => Ok((c, c2, r2)),
    }
}

/// How much of a token stream is left: each character counts twice, a token
/// loaded ahead once.
pub open spec fn measure(c: Option<TokenSpec>, rest: Seq<char>) -> nat {
    2 * rest.len() + if c is Some {
        1nat
    } else {
        0nat
    }
}

/// An id reference as the assembler reads it: a number if the text is one
/// that fits a `u32`, else a name.
pub open spec fn idref_of(s: Seq<char>) -> IdRefSpec {
    match parse_u32(s) {
        Some(n) => IdRefSpec::Id(n),
        None => IdRefSpec::Name(s),
    }
}

/// Reading an opcode: the next token must be an instruction's name.
pub open spec fn p_opcode(c: Option<TokenSpec>, rest: Seq<char>, isa: InstructionSet) -> Result<
    (u32, Option<TokenSpec>, Seq<char>),
    Error,
> {
    match st_next(c, rest) {
        Err(e) => Err(e),
        Ok((t, c2, r2)) => match t {
            Some(TokenSpec::Ident(name)) => match op_by_name(isa.ops@, name) {
                Some(o) => Ok((o.opcode, c2, r2)),
                None => Err(Error::UnknownOpName),
            },
            _ => Err(Error::ExpectedOpcode),
        },
    }
}

/// Reading an operand: an id reference, a literal or an identifier.
pub open spec fn p_operand(c: Option<TokenSpec>, rest: Seq<char>) -> Result<
    (OperandSpec, Option<TokenSpec>, Seq<char>),
    Error,
> {
    match st_next(c, rest) {
        Err(e) => Err(e),
        Ok((t, c2, r2)) => match t {
            Some(TokenSpec::IdRef(id)) => Ok((OperandSpec::IdRef(idref_of(id)), c2, r2)),
            Some(TokenSpec::Literal(l)) => Ok((OperandSpec::Literal(l), c2, r2)),
            Some(TokenSpec::Ident(s)) => Ok((OperandSpec::Ident(s), c2, r2)),
            _ => Err(Error::ExpectedOperand),
        },
    }
}

/// Reading operands up to the end of the line (which is taken) or of the
/// text, skipping comments.
pub open spec fn p_operands(c: Option<TokenSpec>, rest: Seq<char>) -> Result<
    (Seq<OperandSpec>, Option<TokenSpec>, Seq<char>),
    Error,
>
    decreases measure(c, rest),
{
    match c {
        None => Ok((Seq::empty(), c, rest)),
        Some(TokenSpec::NewLine) => match st_next(c, rest) {
            Err(e) => Err(e),
            Ok((_, c2, r2)) => Ok((Seq::empty(), c2, r2)),
        },
        Some(TokenSpec::Comment(_)) => match st_next(c, rest) {
            Err(e) => Err(e),
            Ok((_, c2, r2)) => if measure(c2, r2) < measure(c, rest) {
                p_operands(c2, r2)
            } else {
                Ok((Seq::empty(), c2, r2))
            },
        },
        Some(_) => match p_operand(c, rest) {
            Err(e) => Err(e),
            Ok((o, c2, r2)) => if measure(c2, r2) < measure(c, rest) {
                match p_operands(c2, r2) {
                    Err(e) => Err(e),
                    Ok((os, c3, r3)) => Ok((seq![o] + os, c3, r3)),
                }
            } else {
                Ok((seq![o], c2, r2))
            },
        },
    }
}

/// Reading an instruction with a result id: the id, `=`, the opcode and the
/// operands.
pub open spec fn p_instr_with_result_id(
    c: Option<TokenSpec>,
    rest: Seq<char>,
    isa: InstructionSet,
) -> Result<(InstrSpec, Option<TokenSpec>, Seq<char>), Error> {
    match st_next(c, rest) {
        Err(e) => Err(e),
        Ok((Some(TokenSpec::IdRef(id)), c1, r1)) => {
            let rid = idref_of(id);
            match st_next(c1, r1) {
                Err(e) => Err(e),
                Ok((eq, c2, r2)) => if !(eq matches Some(TokenSpec::Eq)) {
                    Err(Error::ExpectedEq)
                } else {
                    match p_opcode(c2, r2, isa) {
                        Err(e) => Err(e),
                        Ok((opcode, c3, r3)) => match p_operands(c3, r3) {
                            Err(e) => Err(e),
                            Ok((os, c4, r4)) => Ok(
                                (InstrSpec { result_id: Some(rid), opcode, operands: os }, c4, r4),
                            ),
                        },
                    }
                },
            }
        },
        Ok(_) => Err(Error::UnexpectedToken),
    }
}

/// Reading an instruction without a result id: the opcode and the operands.
pub open spec fn p_instr_without_result_id(
    c: Option<TokenSpec>,
    rest: Seq<char>,
    isa: InstructionSet,
) -> Result<(InstrSpec, Option<TokenSpec>, Seq<char>), Error> {
    match p_opcode(c, rest, isa) {
        Err(e) => Err(e),
        Ok((opcode, c1, r1)) => match p_operands(c1, r1) {
            Err(e) => Err(e),
            Ok((os, c2, r2)) => Ok((InstrSpec { result_id: None, opcode, operands: os }, c2, r2)),
        },
    }
}

/// Reading the next instruction, skipping comments and empty lines; none at
/// the end of the text.
pub open spec fn p_instr(c: Option<TokenSpec>, rest: Seq<char>, isa: InstructionSet) -> Result<
    (Option<InstrSpec>, Option<TokenSpec>, Seq<char>),
    Error,
>
    decreases measure(c, rest),
{
    match c {
        None => Ok((None, c, rest)),
        Some(TokenSpec::Comment(_)) | Some(TokenSpec::NewLine) => match st_next(c, rest) {
            Err(e) => Err(e),
            Ok((_, c2, r2)) => if measure(c2, r2) < measure(c, rest) {
                p_instr(c2, r2, isa)
            } else {
                Ok((None, c2, r2))
            },
        },
        Some(TokenSpec::Ident(_)) => match p_instr_without_result_id(c, rest, isa) {
            Err(e) => Err(e),
            Ok((i, c2, r2)) => Ok((Some(i), c2, r2)),
        },
        Some(TokenSpec::IdRef(_)) => match p_instr_with_result_id(c, rest, isa) {
            Err(e) => Err(e),
            Ok((i, c2, r2)) => Ok((Some(i), c2, r2)),
        },
        Some(_) => Err(Error::UnexpectedToken),
    }
}

/// Reading all the instructions.
pub open spec fn p_instrs(c: Option<TokenSpec>, rest: Seq<char>, isa: InstructionSet) -> Result<
    Seq<InstrSpec>,
    Error,
>
    decreases measure(c, rest),
{
    match p_instr(c, rest, isa) {
        Err(e) => Err(e),
        Ok((None, _, _)) => Ok(Seq::empty()),
        Ok((Some(i), c2, r2)) => if measure(c2, r2) < measure(c, rest) {
            match p_instrs(c2, r2, isa) {
                Err(e) => Err(e),
                Ok(is) => Ok(seq![i] + is),
            }
        } else {
            Ok(seq![i])
        },
    }
}

/// The instructions of an assembly text, in order, or the first error.
pub open spec fn parsed(text: Seq<char>, isa: InstructionSet) -> Result<Seq<InstrSpec>, Error> {
    match st_load(text) {
        Err(e) => Err(e),
        Ok((c, r)) => p_instrs(c, r, isa),
    }
}

proof fn lemma_load_shrinks(rest: Seq<char>)
    ensures
        st_load(rest) matches Ok((c, r)) ==> r.len() <= rest.len() && (c is Some ==> r.len()
            < rest.len()),
{
    lemma_lex_progress(rest);
}

proof fn lemma_next_shrinks(c: Option<TokenSpec>, rest: Seq<char>)
    ensures
        st_next(c, rest) matches Ok((t, c2, r2)) ==> t == c && measure(c2, r2) <= measure(c, rest)
            && (c is Some ==> measure(c2, r2) < measure(c, rest)),
{
    lemma_load_shrinks(rest);
}

proof fn lemma_operands_shrink(c: Option<TokenSpec>, rest: Seq<char>)
    ensures
        p_operands(c, rest) matches Ok((os, c2, r2)) ==> measure(c2, r2) <= measure(c, rest),
    decreases measure(c, rest),
{
    lemma_next_shrinks(c, rest);
    match c {
        Some(TokenSpec::Comment(_)) => {
            if let Ok((_, c2, r2)) = st_next(c, rest) {
                if measure(c2, r2) < measure(c, rest) {
                    lemma_operands_shrink(c2, r2);
                }
            }
        },
        Some(TokenSpec::NewLine) => {},
        None => {},
        Some(_) => {
            if let Ok((o, c2, r2)) = p_operand(c, rest) {
                if measure(c2, r2) < measure(c, rest) {
                    lemma_operands_shrink(c2, r2);
                }
            }
        },
    }
}

proof fn lemma_instr_shrinks(c: Option<TokenSpec>, rest: Seq<char>, isa: InstructionSet)
    ensures
        p_instr(c, rest, isa) matches Ok((i, c2, r2)) ==> measure(c2, r2) <= measure(c, rest) && (i is Some
            ==> measure(c2, r2) < measure(c, rest)),
    decreases measure(c, rest),
{
    lemma_next_shrinks(c, rest);
    match c {
        None => {},
        Some(TokenSpec::Comment(_)) | Some(TokenSpec::NewLine) => {
            if let Ok((_, c2, r2)) = st_next(c, rest) {
                if measure(c2, r2) < measure(c, rest) {
                    lemma_instr_shrinks(c2, r2, isa);
                }
            }
        },
        Some(TokenSpec::Ident(_)) => {
            if let Ok((_, c1, r1)) = p_opcode(c, rest, isa) {
                lemma_operands_shrink(c1, r1);
            }
        },
        Some(TokenSpec::IdRef(_)) => {
            if let Ok((_, c1, r1)) = st_next(c, rest) {
                lemma_next_shrinks(c1, r1);
                if let Ok((_, c2, r2)) = st_next(c1, r1) {
                    lemma_next_shrinks(c2, r2);
                    if let Ok((_, c3, r3)) = p_opcode(c2, r2, isa) {
                        lemma_operands_shrink(c3, r3);
                    }
                }
            }
        },
        Some(_) => {},
    }
}

/// A stream of tokens with one loaded ahead.
pub struct TokenStream {
    tokenizer: Tokenizer,
    cache: Option<Token>,
}

impl TokenStream {
    /// The token loaded ahead.
    pub closed spec fn cached(self) -> Option<TokenSpec> {
        opt_view(self.cache)
    }

    /// The characters after the token loaded ahead.
    pub closed spec fn rest(self) -> Seq<char> {
        self.tokenizer.rest()
    }

    /// A stream over the tokens of `tokenizer`, with the first loaded.
    pub fn new(tokenizer: Tokenizer) -> (r: Result<TokenStream, Error>)
        ensures
            match st_load(tokenizer.rest()) {
                Ok((c, rest)) => r matches Ok(s) && s.cached() == c && s.rest() == rest,
                Err(e) => r is Err && r->Err_0 == e,
            },
    {
        let mut out = TokenStream { tokenizer, cache: None };
        match out.load_next() {
            Ok(()) => Ok(out),
            Err(e) => Err(e),
        }
    }

    fn load_next(&mut self) -> (r: Result<(), Error>)
        ensures
            match st_load(old(self).rest()) {
                Ok((c, rest)) => r is Ok && final(self).cached() == c && final(self).rest() == rest,
                Err(e) => r == Err::<(), Error>(e),
            },
    {
        match self.tokenizer.tokenize() {
            Ok(t) => {
                self.cache = t;
                Ok(())
            },
            Err(e) => Err(e),
        }
    }

    /// The token loaded ahead.
    pub fn peek(&self) -> (r: Option<&Token>)
        ensures
            match r {
                Some(t) => self.cached() == Some(t@),
                None => self.cached() is None,
            },
    {
        self.cache.as_ref()
    }

    /// Take the token loaded ahead and load the next one.
    pub fn next(&mut self) -> (r: Result<Option<Token>, Error>)
        ensures
            match st_next(old(self).cached(), old(self).rest()) {
                Ok((t, c2, r2)) => r matches Ok(x) && opt_view(x) == t && final(self).cached() == c2
                    && final(self).rest() == r2,
                Err(e) => r == Err::<Option<Token>, Error>(e),
            },
    {
        let last_cache = self.cache.take();
        match self.load_next() {
            Ok(()) => Ok(last_cache),
            Err(e) => Err(e),
        }
    }
}

impl Assembler {
    fn parse_opcode(&self, s: &mut TokenStream, isa: &InstructionSet) -> (r: Result<u32, Error>)
        ensures
            match p_opcode(old(s).cached(), old(s).rest(), *isa) {
                Ok((op, c2, r2)) => r == Ok::<u32, Error>(op) && final(s).cached() == c2 && final(s).rest() == r2,
                Err(e) => r == Err::<u32, Error>(e),
            },
    {
        match s.next()? {
            Some(Token::Ident(ident)) => op_from_str(isa, ident.as_str()),
            _ => Err(Error::ExpectedOpcode),
        }
    }

    fn parse_idref(&self, s: &mut TokenStream) -> (r: Result<IdRef, Error>)
        ensures
            match st_next(old(s).cached(), old(s).rest()) {
                Ok((Some(TokenSpec::IdRef(id)), c2, r2)) => r matches Ok(x) && x@ == idref_of(id)
                    && final(s).cached() == c2 && final(s).rest() == r2,
                Ok(_) => r == Err::<IdRef, Error>(Error::UnexpectedToken),
                Err(e) => r == Err::<IdRef, Error>(e),
            },
    {
        match s.next()? {
            Some(Token::IdRef(id)) => Ok(self.str2idref(id)),
            _ => Err(Error::UnexpectedToken),
        }
    }

    fn parse_operand(&self, s: &mut TokenStream) -> (r: Result<Operand, Error>)
        ensures
            match p_operand(old(s).cached(), old(s).rest()) {
                Ok((o, c2, r2)) => r matches Ok(x) && x@ == o && final(s).cached() == c2 && final(s).rest() == r2,
                Err(e) => r == Err::<Operand, Error>(e),
            },
    {
        match s.next()? {
            Some(Token::IdRef(id)) => Ok(Operand::IdRef(self.str2idref(id))),
            Some(Token::Literal(lit)) => Ok(Operand::Literal(lit)),
            Some(Token::Ident(ident)) => Ok(Operand::Ident(ident)),
            _ => Err(Error::ExpectedOperand),
        }
    }

    fn parse_operands(&self, s: &mut TokenStream) -> (r: Result<Vec<Operand>, Error>)
        ensures
            match p_operands(old(s).cached(), old(s).rest()) {
                Ok((os, c2, r2)) => r matches Ok(v) && v@.map_values(|o: Operand| o@) == os
                    && final(s).cached() == c2 && final(s).rest() == r2,
                Err(e) => r == Err::<Vec<Operand>, Error>(e),
            },
    {
        let mut out: Vec<Operand> = Vec::new();
        let ghost c0 = s.cached();
        let ghost r0 = s.rest();
        loop
            invariant
                c0 == old(s).cached(),
                r0 == old(s).rest(),
                p_operands(c0, r0) == match p_operands(s.cached(), s.rest()) {
                    Ok((os, c2, r2)) => Ok((out@.map_values(|o: Operand| o@) + os, c2, r2)),
                    Err(e) => Err::<(Seq<OperandSpec>, Option<TokenSpec>, Seq<char>), Error>(e),
                },
            decreases measure(s.cached(), s.rest()),
        {
            let ghost c = s.cached();
            let ghost rest = s.rest();
            proof {
                lemma_next_shrinks(c, rest);
            }
            let is_end;
            let is_skip;
            match s.peek() {
                None => {
                    assert(out@.map_values(|o: Operand| o@) + Seq::<OperandSpec>::empty() =~= out@.map_values(
                        |o: Operand| o@,
                    ));
                    return Ok(out);
                },
                Some(Token::NewLine) => {
                    is_end = true;
                    is_skip = false;
                },
                Some(Token::Comment(_)) => {
                    is_end = false;
                    is_skip = true;
                },
                Some(_) => {
                    is_end = false;
                    is_skip = false;
                },
            }
            if is_end {
                s.next()?;
                assert(out@.map_values(|o: Operand| o@) + Seq::<OperandSpec>::empty() =~= out@.map_values(
                    |o: Operand| o@,
                ));
                return Ok(out);
            } else if is_skip {
                s.next()?;
            } else {
                let o = self.parse_operand(s)?;
                let ghost prev = out@.map_values(|o: Operand| o@);
                out.push(o);
                proof {
                    assert(out@.map_values(|o: Operand| o@) =~= prev.push(o@));
                    match p_operands(s.cached(), s.rest()) {
                        Ok((os, c2, r2)) => {
                            assert(prev + (seq![o@] + os) =~= out@.map_values(|o: Operand| o@) + os);
                        },
                        Err(_) => {},
                    }
                }
            }
        }
    }

    fn parse_instr_with_result_id(&self, s: &mut TokenStream, isa: &InstructionSet) -> (r: Result<
        Instruction,
        Error,
    >)
        ensures
            match p_instr_with_result_id(old(s).cached(), old(s).rest(), *isa) {
                Ok((i, c2, r2)) => r matches Ok(x) && x@ == i && final(s).cached() == c2 && final(s).rest() == r2,
                Err(e) => r == Err::<Instruction, Error>(e),
            },
    {
        let result_id = self.parse_idref(s)?;
        let eq_token = s.next()?;
        match eq_token {
            Some(Token::Eq) => {},
            _ => return Err(Error::ExpectedEq),
        }
        let opcode = self.parse_opcode(s, isa)?;
        let operands = self.parse_operands(s)?;
        Ok(Instruction { result_id: Some(result_id), opcode, operands })
    }

    fn parse_instr_without_result_id(&self, s: &mut TokenStream, isa: &InstructionSet) -> (r: Result<
        Instruction,
        Error,
    >)
        ensures
            match p_instr_without_result_id(old(s).cached(), old(s).rest(), *isa) {
                Ok((i, c2, r2)) => r matches Ok(x) && x@ == i && final(s).cached() == c2 && final(s).rest() == r2,
                Err(e) => r == Err::<Instruction, Error>(e),
            },
    {
        let opcode = self.parse_opcode(s, isa)?;
        let operands = self.parse_operands(s)?;
        Ok(Instruction { result_id: None, opcode, operands })
    }

    fn parse_instr(&self, s: &mut TokenStream, isa: &InstructionSet) -> (r: Result<Option<Instruction>, Error>)
        ensures
            match p_instr(old(s).cached(), old(s).rest(), *isa) {
                Ok((i, c2, r2)) => r matches Ok(x) && final(s).cached() == c2 && final(s).rest() == r2
                    && match (x, i) {
                    (Some(a), Some(b)) => a@ == b,
                    (None, None) => true,
                    _ => false,
                },
                Err(e) => r == Err::<Option<Instruction>, Error>(e),
            },
    {
        let ghost c0 = s.cached();
        let ghost r0 = s.rest();
        loop
            invariant
                c0 == old(s).cached(),
                r0 == old(s).rest(),
                p_instr(c0, r0, *isa) == p_instr(s.cached(), s.rest(), *isa),
            decreases measure(s.cached(), s.rest()),
        {
            proof {
                lemma_next_shrinks(s.cached(), s.rest());
            }
            let kind: u8 = match s.peek() {
                None => 0,
                Some(Token::Comment(_)) => 1,
                Some(Token::NewLine) => 1,
                Some(Token::Ident(_)) => 2,
                Some(Token::IdRef(_)) => 3,
                Some(_) => 4,
            };
            if kind == 0 {
                return Ok(None);
            } else if kind == 1 {
                s.next()?;
            } else if kind == 2 {
                let instr = self.parse_instr_without_result_id(s, isa)?;
                return Ok(Some(instr));
            } else if kind == 3 {
                let instr = self.parse_instr_with_result_id(s, isa)?;
                return Ok(Some(instr));
            } else {
                return Err(Error::UnexpectedToken);
            }
        }
    }

    fn parse_instrs(&self, s: &mut TokenStream, isa: &InstructionSet) -> (r: Result<Vec<Instruction>, Error>)
        ensures
            match p_instrs(old(s).cached(), old(s).rest(), *isa) {
                Ok(is) => r matches Ok(v) && v@.map_values(|i: Instruction| i@) == is,
                Err(e) => r == Err::<Vec<Instruction>, Error>(e),
            },
    {
        let mut out: Vec<Instruction> = Vec::new();
        let ghost c0 = s.cached();
        let ghost r0 = s.rest();
        loop
            invariant
                c0 == old(s).cached(),
                r0 == old(s).rest(),
                p_instrs(c0, r0, *isa) == match p_instrs(s.cached(), s.rest(), *isa) {
                    Ok(is) => Ok(out@.map_values(|i: Instruction| i@) + is),
                    Err(e) => Err::<Seq<InstrSpec>, Error>(e),
                },
            decreases measure(s.cached(), s.rest()),
        {
            proof {
                lemma_instr_shrinks(s.cached(), s.rest(), *isa);
            }
            match self.parse_instr(s, isa)? {
                None => {
                    assert(out@.map_values(|i: Instruction| i@) + Seq::<InstrSpec>::empty() =~= out@.map_values(
                        |i: Instruction| i@,
                    ));
                    return Ok(out);
                },
                Some(instr) => {
                    let ghost prev = out@.map_values(|i: Instruction| i@);
                    let ghost iv = instr@;
                    out.push(instr);
                    proof {
                        assert(out@.map_values(|i: Instruction| i@) =~= prev.push(iv));
                        match p_instrs(s.cached(), s.rest(), *isa) {
                            Ok(is) => {
                                assert(prev + (seq![iv] + is) =~= out@.map_values(|i: Instruction| i@) + is);
                            },
                            Err(_) => {},
                        }
                    }
                },
            }
        }
    }

    /// Read the instructions of an assembly text.
    pub fn parse(&self, input: &str, isa: &InstructionSet) -> (r: Result<Vec<Instruction>, Error>)
        ensures
            match parsed(input@, *isa) {
                Ok(is) => r matches Ok(v) && v@.map_values(|i: Instruction| i@) == is,
                Err(e) => r == Err::<Vec<Instruction>, Error>(e),
            },
    {
        let tokenizer = Tokenizer::new(input);
        let mut s = TokenStream::new(tokenizer)?;
        self.parse_instrs(&mut s, isa)
    }
}

} // verus!
