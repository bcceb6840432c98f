//! Tokenizer of SPIR-V assembly text.
use vstd::prelude::*;
use vstd::arithmetic::power::pow;

use vstd::string::spec_iter;
use vstd::std_specs::iter::IteratorSpec;

use crate::error::Error;
use crate::text::push_char;

verus! {

broadcast use vstd::string::group_string_axioms;

/// A literal.
#[derive(Debug, Clone)]
pub enum Lit {
    /// An integer.
    Int(i64),
    /// A floating-point number: the decimal text of its mantissa, which
    /// `f64::from_str` accepts, and a binary exponent to scale it by.
    Float(String, i32),
    /// A string.
    String(String),
}

/// A token of SPIR-V assembly.
#[derive(Debug)]
pub enum Token {
    /// A comment, without its leading `;`.
    Comment(String),
    /// A literal.
    Literal(Lit),
    /// An identifier such as an opcode or enumerant name.
    Ident(String),
    /// An id reference, without its leading `%`.
    IdRef(String),
    /// `=`.
    Eq,
    /// The end of a line.
    NewLine,
}

/// What a literal holds, with its text as characters.
pub enum LitSpec {
    Int(int),
    Float(Seq<char>, int),
    String(Seq<char>),
}

/// What a token holds, with its text as characters.
pub enum TokenSpec {
    Comment(Seq<char>),
    Literal(LitSpec),
    Ident(Seq<char>),
    IdRef(Seq<char>),
    Eq,
    NewLine,
}

impl View for Lit {
    type V = LitSpec;

    open spec fn view(&self) -> LitSpec {
        match self {
            Lit::Int(i) => LitSpec::Int(*i as int),
            Lit::Float(m, e) => LitSpec::Float(m@, *e as int),
            Lit::String(s) => LitSpec::String(s@),
        }
    }
}

impl View for Token {
    type V = TokenSpec;

    open spec fn view(&self) -> TokenSpec {
        match self {
            Token::Comment(s) => TokenSpec::Comment(s@),
            Token::Literal(l) => TokenSpec::Literal(l@),
            Token::Ident(s) => TokenSpec::Ident(s@),
            Token::IdRef(s) => TokenSpec::IdRef(s@),
            Token::Eq => TokenSpec::Eq,
            Token::NewLine => TokenSpec::NewLine,
        }
    }
}

/// Classes of characters that the tokenizer reads in runs.
#[derive(Clone, Copy, PartialEq, Eq, Structural)]
pub enum CharClass {
    /// `0` to `9`.
    Digit,
    /// `0` to `9`, `a` to `f` and `A` to `F`.
    HexDigit,
    /// ASCII letters and digits, and `_`.
    IdChar,
    /// Digits and signs, as read after the exponent mark of a decimal float.
    ExpChar,
    /// Anything but a line feed.
    NotNewLine,
    /// ASCII white space other than a line feed.
    Blank,
}

pub open spec fn is_digit(c: char) -> bool {
    '0' <= c <= '9'
}

pub open spec fn is_hex_digit(c: char) -> bool {
    is_digit(c) || 'a' <= c <= 'f' || 'A' <= c <= 'F'
}

pub open spec fn is_alpha(c: char) -> bool {
    'a' <= c <= 'z' || 'A' <= c <= 'Z'
}

/// ASCII white space as `char::is_ascii_whitespace` defines it.
pub open spec fn is_ws(c: char) -> bool {
    c == ' ' || c == '\t' || c == '\n' || c == '\x0C' || c == '\r'
}

pub open spec fn in_class(c: char, k: CharClass) -> bool {
    match k {
        CharClass::Digit => is_digit(c),
        CharClass::HexDigit => is_hex_digit(c),
        CharClass::IdChar => is_alpha(c) || is_digit(c) || c == '_',
        CharClass::ExpChar => is_digit(c) || c == '+' || c == '-',
        CharClass::NotNewLine => c != '\n',
        CharClass::Blank => is_ws(c) && c != '\n',
    }
}

/// The number of leading characters of `cs` in the class `k`.
pub open spec fn run_len(cs: Seq<char>, k: CharClass) -> nat
    decreases cs.len(),
{
    if cs.len() > 0 && in_class(cs[0], k) {
        1 + run_len(cs.drop_first(), k)
    } else {
        0
    }
}

/// The value of a digit in base 16.
pub open spec fn digit_value(c: char) -> nat {
    if is_digit(c) {
        (c as nat - '0' as nat) as nat
    } else if 'a' <= c <= 'f' {
        (c as nat - 'a' as nat + 10) as nat
    } else {
        (c as nat - 'A' as nat + 10) as nat
    }
}

/// The hexadecimal digits are worth their places in `0123456789abcdef`, and
/// the upper-case letters are worth what the lower-case ones are: `a` to
/// `f` and `A` to `F` are both worth 10 to 15.
pub proof fn lemma_hex_digit_values()
    ensures
        forall|i: int| 0 <= i < 16 ==> #[trigger] digit_value("0123456789abcdef"@[i]) == i,
        forall|i: int| 0 <= i < 16 ==> #[trigger] digit_value("0123456789ABCDEF"@[i]) == i,
        forall|c: char| #[trigger] is_hex_digit(c) ==> digit_value(c) < 16,
{
    reveal_strlit("0123456789abcdef");
    reveal_strlit("0123456789ABCDEF");
    assert(digit_value("0123456789abcdef"@[0]) == 0);
    assert(digit_value("0123456789ABCDEF"@[0]) == 0);
    assert(digit_value("0123456789abcdef"@[1]) == 1);
    assert(digit_value("0123456789ABCDEF"@[1]) == 1);
    assert(digit_value("0123456789abcdef"@[2]) == 2);
    assert(digit_value("0123456789ABCDEF"@[2]) == 2);
    assert(digit_value("0123456789abcdef"@[3]) == 3);
    assert(digit_value("0123456789ABCDEF"@[3]) == 3);
    assert(digit_value("0123456789abcdef"@[4]) == 4);
    assert(digit_value("0123456789ABCDEF"@[4]) == 4);
    assert(digit_value("0123456789abcdef"@[5]) == 5);
    assert(digit_value("0123456789ABCDEF"@[5]) == 5);
    assert(digit_value("0123456789abcdef"@[6]) == 6);
    assert(digit_value("0123456789ABCDEF"@[6]) == 6);
    assert(digit_value("0123456789abcdef"@[7]) == 7);
    assert(digit_value("0123456789ABCDEF"@[7]) == 7);
    assert(digit_value("0123456789abcdef"@[8]) == 8);
    assert(digit_value("0123456789ABCDEF"@[8]) == 8);
    assert(digit_value("0123456789abcdef"@[9]) == 9);
    assert(digit_value("0123456789ABCDEF"@[9]) == 9);
    assert(digit_value("0123456789abcdef"@[10]) == 10);
    assert(digit_value("0123456789ABCDEF"@[10]) == 10);
    assert(digit_value("0123456789abcdef"@[11]) == 11);
    assert(digit_value("0123456789ABCDEF"@[11]) == 11);
    assert(digit_value("0123456789abcdef"@[12]) == 12);
    assert(digit_value("0123456789ABCDEF"@[12]) == 12);
    assert(digit_value("0123456789abcdef"@[13]) == 13);
    assert(digit_value("0123456789ABCDEF"@[13]) == 13);
    assert(digit_value("0123456789abcdef"@[14]) == 14);
    assert(digit_value("0123456789ABCDEF"@[14]) == 14);
    assert(digit_value("0123456789abcdef"@[15]) == 15);
    assert(digit_value("0123456789ABCDEF"@[15]) == 15);
}

/// Digits read in base 16 do not depend on the case of their letters: the
/// digits with their letters made upper-case write the same number.
pub proof fn lemma_hex_case_insensitive(ds: Seq<char>)
    requires
        forall|i: int| 0 <= i < ds.len() ==> is_hex_digit(#[trigger] ds[i]),
    ensures
        digits_value(ds, 16) == digits_value(
            ds.map_values(|c: char| if 'a' <= c <= 'f' {
                ((c as u32) - 32) as char
            } else {
                c
            }),
            16,
        ),
    decreases ds.len(),
{
    let up = |c: char| if 'a' <= c <= 'f' {
        ((c as u32) - 32) as char
    } else {
        c
    };
    if ds.len() > 0 {
        lemma_hex_case_insensitive(ds.drop_last());
        assert(ds.map_values(up).drop_last() =~= ds.drop_last().map_values(up));
        let c = ds.last();
        if 'a' <= c <= 'f' {
            let u = ((c as u32) - 32) as char;
            assert('A' <= u <= 'F');
            assert(u as nat - 'A' as nat == c as nat - 'a' as nat);
        }
    }
}

/// The number that the digits `ds` write in base `b`.
pub open spec fn digits_value(ds: Seq<char>, b: nat) -> nat
    decreases ds.len(),
{
    if ds.len() == 0 {
        0
    } else {
        digits_value(ds.drop_last(), b) * b + digit_value(ds.last())
    }
}

/// Reading digits place by place: the digits of `hi` followed by those of
/// `lo` write the number of `hi` shifted by as many places as `lo` has,
/// plus the number of `lo`; a single digit writes its own value.
pub proof fn lemma_digits_concat(hi: Seq<char>, lo: Seq<char>, b: nat)
    ensures
        digits_value(hi + lo, b) == digits_value(hi, b) * pow(b as int, lo.len()) + digits_value(lo, b),
        lo.len() == 1 ==> digits_value(lo, b) == digit_value(lo[0]),
    decreases lo.len(),
{
    reveal(pow);
    if lo.len() == 0 {
        assert(hi + lo =~= hi);
    } else {
        lemma_digits_concat(hi, lo.drop_last(), b);
        assert((hi + lo).drop_last() =~= hi + lo.drop_last());
        assert((hi + lo).last() == lo.last());
        let p = pow(b as int, lo.drop_last().len());
        assert(pow(b as int, lo.len()) == b * p);
        let h = digits_value(hi, b) as int;
        let l = digits_value(lo.drop_last(), b) as int;
        assert((h * p + l) * b + digit_value(lo.last()) == h * (b * p) + (l * b + digit_value(lo.last())))
            by (nonlinear_arith);
        if lo.len() == 1 {
            assert(lo.drop_last().len() == 0);
        }
    }
}

/// The characters of a comment: everything up to the end of the line, after
/// the first character.
pub open spec fn lex_comment(cs: Seq<char>) -> (TokenSpec, nat) {
    if cs.len() == 0 {
        (TokenSpec::Comment(Seq::empty()), 0)
    } else {
        let k = run_len(cs.drop_first(), CharClass::NotNewLine);
        (TokenSpec::Comment(cs.subrange(1, 1 + k as int)), 1 + k)
    }
}

/// An id reference: the identifier characters after the first character.
pub open spec fn lex_idref(cs: Seq<char>) -> (TokenSpec, nat) {
    if cs.len() == 0 {
        (TokenSpec::IdRef(Seq::empty()), 0)
    } else {
        let k = run_len(cs.drop_first(), CharClass::IdChar);
        (TokenSpec::IdRef(cs.subrange(1, 1 + k as int)), 1 + k)
    }
}

/// An identifier: the leading identifier characters.
pub open spec fn lex_ident(cs: Seq<char>) -> (TokenSpec, nat) {
    let k = run_len(cs, CharClass::IdChar);
    (TokenSpec::Ident(cs.subrange(0, k as int)), k)
}

/// The body of a string literal up to its closing quote or the end of the
/// input: a backslash takes the next character as it is. Gives the
/// characters and the number of characters read, the closing quote included.
pub open spec fn string_body(cs: Seq<char>, escape: bool) -> (Seq<char>, nat)
    decreases cs.len(),
{
    if cs.len() == 0 {
        (Seq::empty(), 0)
    } else {
        let c = cs[0];
        let rest = cs.drop_first();
        if escape {
            let r = string_body(rest, false);
            (seq![c] + r.0, 1 + r.1)
        } else if c == '\\' {
            let r = string_body(rest, true);
            (r.0, 1 + r.1)
        } else if c == '"' {
            (Seq::empty(), 1)
        } else {
            let r = string_body(rest, false);
            (seq![c] + r.0, 1 + r.1)
        }
    }
}

/// A string literal: the body after the first character.
pub open spec fn lex_string(cs: Seq<char>) -> (TokenSpec, nat) {
    if cs.len() == 0 {
        (TokenSpec::Literal(LitSpec::String(Seq::empty())), 0)
    } else {
        let r = string_body(cs.drop_first(), false);
        (TokenSpec::Literal(LitSpec::String(r.0)), 1 + r.1)
    }
}

/// The characters after the exponent mark of a decimal float form a valid
/// exponent: an optional sign, then at least one digit.
pub open spec fn exponent_ok(x: Seq<char>) -> bool {
    let d = if x.len() > 0 && (x[0] == '+' || x[0] == '-') {
        x.drop_first()
    } else {
        x
    };
    d.len() > 0 && run_len(d, CharClass::Digit) == d.len()
}

/// The largest value of an `i64`.
pub open spec fn i64_max() -> nat {
    0x7fff_ffff_ffff_ffff
}

/// A decimal literal: digits, then optionally a fraction and an exponent
/// that make it a float. The text of a float is prefixed by `0`.
pub open spec fn lex_decimal(cs: Seq<char>) -> Result<(LitSpec, nat), Error> {
    let d1 = run_len(cs, CharClass::Digit);
    let int_digits = cs.subrange(0, d1 as int);
    let after = cs.skip(d1 as int);
    if after.len() > 0 && after[0] == '.' {
        let d2 = run_len(after.drop_first(), CharClass::Digit);
        let mantissa = seq!['0'] + int_digits + seq!['.'] + after.subrange(1, 1 + d2 as int);
        let after2 = after.skip(1 + d2 as int);
        if after2.len() > 0 && (after2[0] == 'e' || after2[0] == 'E') {
            let x = run_len(after2.drop_first(), CharClass::ExpChar);
            let exp = after2.subrange(1, 1 + x as int);
            if exponent_ok(exp) {
                Ok((LitSpec::Float(mantissa + seq![after2[0]] + exp, 0), d1 + 1 + d2 + 1 + x))
            } else {
                Err(Error::InvalidNumber)
            }
        } else {
            Ok((LitSpec::Float(mantissa, 0), d1 + 1 + d2))
        }
    } else if digits_value(int_digits, 10) <= i64_max() {
        Ok((LitSpec::Int(digits_value(int_digits, 10) as int), d1))
    } else {
        Err(Error::InvalidNumber)
    }
}

/// The binary exponent of a hexadecimal float after its `p`: an optional
/// sign, then digits that must be there and fit an `i32`. Gives the exponent
/// and the number of characters read.
pub open spec fn lex_binary_exponent(cs: Seq<char>) -> Result<(int, nat), Error> {
    let s: nat = if cs.len() > 0 && (cs[0] == '+' || cs[0] == '-') {
        1
    } else {
        0
    };
    let neg = s == 1 && cs[0] == '-';
    let e = run_len(cs.skip(s as int), CharClass::Digit);
    let v = digits_value(cs.subrange(s as int, (s + e) as int), 10);
    if e == 0 {
        Err(Error::InvalidNumber)
    } else if neg && v <= 0x8000_0000 {
        Ok((-v, s + e))
    } else if !neg && v <= 0x7fff_ffff {
        Ok((v as int, s + e))
    } else {
        Err(Error::InvalidNumber)
    }
}

/// A hexadecimal literal after its `0x`: hex digits, or `1.` followed by
/// decimal digits and an optional binary exponent for a float.
pub open spec fn lex_hexadecimal(cs: Seq<char>) -> Result<(LitSpec, nat), Error> {
    let h = run_len(cs, CharClass::HexDigit);
    let digits = cs.subrange(0, h as int);
    let after = cs.skip(h as int);
    if after.len() > 0 && after[0] == '.' && digits == seq!['1'] {
        let d2 = run_len(after.drop_first(), CharClass::Digit);
        let mantissa = seq!['1', '.'] + after.subrange(1, 1 + d2 as int);
        let after2 = after.skip(1 + d2 as int);
        if after2.len() > 0 && (after2[0] == 'p' || after2[0] == 'P') {
            match lex_binary_exponent(after2.drop_first()) {
                Ok((e, n)) => Ok((LitSpec::Float(mantissa, e), h + 1 + d2 + 1 + n)),
                Err(err) => Err(err),
            }
        } else {
            Ok((LitSpec::Float(mantissa, 0), h + 1 + d2))
        }
    } else if h > 0 && digits_value(digits, 16) <= i64_max() {
        Ok((LitSpec::Int(digits_value(digits, 16) as int), h))
    } else {
        Err(Error::InvalidNumber)
    }
}

/// A numeric literal without its sign: a hexadecimal literal after `0x` or
/// `0X`, or a decimal one.
pub open spec fn lex_unsigned(body: Seq<char>) -> Result<(LitSpec, nat), Error> {
    if body.len() == 0 {
        Err(Error::UnexpectedEndOfInput)
    } else if body[0] == '0' && body.len() > 1 && (body[1] == 'x' || body[1] == 'X') {
        shifted(lex_hexadecimal(body.skip(2)), 2)
    } else if body[0] == '0' {
        shifted(lex_decimal(body.drop_first()), 1)
    } else {
        lex_decimal(body)
    }
}

/// A literal with its sign flipped: an integer negated, the text of a float
/// prefixed by `-`.
pub open spec fn negated(l: LitSpec) -> LitSpec {
    match l {
        LitSpec::Int(i) => LitSpec::Int(-i),
        LitSpec::Float(m, e) => LitSpec::Float(seq!['-'] + m, e),
        LitSpec::String(x) => LitSpec::String(x),
    }
}

/// A numeric literal: an optional minus sign, then an unsigned literal that
/// the sign negates.
pub open spec fn lex_numeric(cs: Seq<char>) -> Result<(TokenSpec, nat), Error> {
    if cs.len() == 0 {
        Err(Error::UnexpectedEndOfInput)
    } else if cs[0] == '-' {
        match lex_unsigned(cs.drop_first()) {
            Ok((l, n)) => Ok((TokenSpec::Literal(negated(l)), n + 1)),
            Err(e) => Err(e),
        }
    } else {
        match lex_unsigned(cs) {
            Ok((l, n)) => Ok((TokenSpec::Literal(l), n)),
            Err(e) => Err(e),
        }
    }
}

/// The token that starts with the character `cs[0]`, which is not white
/// space, and the number of characters it takes.
pub open spec fn lex_token(cs: Seq<char>) -> Result<(Option<TokenSpec>, nat), Error>
    recommends
        cs.len() > 0,
{
    let c = cs[0];
    if c == ';' {
        let (t, n) = lex_comment(cs);
        Ok((Some(t), n))
    } else if c == '=' {
        Ok((Some(TokenSpec::Eq), 1))
    } else if c == '%' {
        let (t, n) = lex_idref(cs);
        Ok((Some(t), n))
    } else if c == '-' || is_digit(c) {
        match lex_numeric(cs) {
            Ok((t, n)) => Ok((Some(t), n)),
            Err(e) => Err(e),
        }
    } else if c == '"' {
        let (t, n) = lex_string(cs);
        Ok((Some(t), n))
    } else if is_alpha(c) || c == '_' {
        let (t, n) = lex_ident(cs);
        Ok((Some(t), n))
    } else {
        Err(Error::UnexpectedCharacter(c))
    }
}

/// The next token of `cs` and the number of characters it takes, or none at
/// the end of the input. Blanks before a token are skipped; a line feed is a
/// token of its own.
#[verifier::opaque]
pub open spec fn lex(cs: Seq<char>) -> Result<(Option<TokenSpec>, nat), Error>
    decreases cs.len(),
{
    if cs.len() == 0 {
        Ok((None, 0))
    } else if is_ws(cs[0]) {
        let k = run_len(cs, CharClass::Blank);
        if k < cs.len() && cs[k as int] == '\n' {
            Ok((Some(TokenSpec::NewLine), k + 1))
        } else {
            proof {
                lemma_run_len_bound(cs, CharClass::Blank);
            }
            shifted(lex(cs.skip(k as int)), k)
        }
    } else {
        lex_token(cs)
    }
}

/// What `lex` gives on an empty input, on blanks and on a token.
pub proof fn lemma_lex_unfold(cs: Seq<char>)
    ensures
        cs.len() == 0 ==> lex(cs) == Ok::<(Option<TokenSpec>, nat), Error>((None, 0)),
        cs.len() > 0 && is_ws(cs[0]) ==> {
            let k = run_len(cs, CharClass::Blank);
            if k < cs.len() && cs[k as int] == '\n' {
                lex(cs) == Ok::<(Option<TokenSpec>, nat), Error>((Some(TokenSpec::NewLine), k + 1))
            } else {
                lex(cs) == shifted(lex(cs.skip(k as int)), k)
            }
        },
        cs.len() > 0 && !is_ws(cs[0]) ==> lex(cs) == lex_token(cs),
{
    reveal_with_fuel(lex, 1);
}

/// All the tokens of `cs`, or the first error.
pub open spec fn lex_all(cs: Seq<char>) -> Result<Seq<TokenSpec>, Error>
    decreases cs.len(),
{
    match lex(cs) {
        Err(e) => Err(e),
        Ok((None, _)) => Ok(Seq::empty()),
        Ok((Some(t), n)) => {
            proof {
                lemma_lex_progress(cs);
            }
            match lex_all(cs.skip(n as int)) {
                Ok(ts) => Ok(seq![t] + ts),
                Err(e) => Err(e),
            }
        },
    }
}

pub proof fn lemma_run_len_bound(cs: Seq<char>, k: CharClass)
    ensures
        run_len(cs, k) <= cs.len(),
        forall|i: int| 0 <= i < run_len(cs, k) ==> in_class(#[trigger] cs[i], k),
        run_len(cs, k) < cs.len() ==> !in_class(cs[run_len(cs, k) as int], k),
    decreases cs.len(),
{
    if cs.len() > 0 && in_class(cs[0], k) {
        lemma_run_len_bound(cs.drop_first(), k);
        assert forall|i: int| 0 <= i < run_len(cs, k) implies in_class(#[trigger] cs[i], k) by {
            if i > 0 {
                assert(cs[i] == cs.drop_first()[i - 1]);
            }
        }
    }
}

/// A run covers a whole sequence exactly when every character is in the
/// class.
pub proof fn lemma_run_len_all(cs: Seq<char>, k: CharClass)
    ensures
        run_len(cs, k) == cs.len() <==> forall|i: int| 0 <= i < cs.len() ==> in_class(
            #[trigger] cs[i],
            k,
        ),
    decreases cs.len(),
{
    lemma_run_len_bound(cs, k);
    if cs.len() > 0 {
        lemma_run_len_all(cs.drop_first(), k);
        if forall|i: int| 0 <= i < cs.len() ==> in_class(#[trigger] cs[i], k) {
            assert forall|i: int| 0 <= i < cs.drop_first().len() implies in_class(
                #[trigger] cs.drop_first()[i],
                k,
            ) by {
                assert(cs.drop_first()[i] == cs[i + 1]);
            }
        }
    }
}

/// The run of a class in a prefix of a longer run is the run in the
/// sequence, cut at the prefix's end.
pub proof fn lemma_run_len_prefix(cs: Seq<char>, n: int, k: CharClass)
    requires
        0 <= n <= cs.len(),
    ensures
        run_len(cs.take(n), k) == if run_len(cs, k) < n {
            run_len(cs, k) as int
        } else {
            n
        },
    decreases n,
{
    if n > 0 {
        assert(cs.take(n).drop_first() =~= cs.drop_first().take(n - 1));
        assert(cs.take(n)[0] == cs[0]);
        lemma_run_len_prefix(cs.drop_first(), n - 1, k);
    }
}

proof fn lemma_string_body_bound(cs: Seq<char>, escape: bool)
    ensures
        string_body(cs, escape).1 <= cs.len(),
    decreases cs.len(),
{
    if cs.len() > 0 {
        lemma_string_body_bound(cs.drop_first(), false);
        lemma_string_body_bound(cs.drop_first(), true);
    }
}

/// Every token takes at least one character and no more than there are.
pub proof fn lemma_lex_progress(cs: Seq<char>)
    ensures
        lex(cs) matches Ok((Some(_), n)) ==> 1 <= n <= cs.len(),
        lex(cs) matches Ok((None, n)) ==> n <= cs.len(),
    decreases cs.len(),
{
    lemma_lex_unfold(cs);
    if cs.len() > 0 {
        let c = cs[0];
        lemma_run_len_bound(cs, CharClass::Blank);
        lemma_run_len_bound(cs, CharClass::IdChar);
        lemma_run_len_bound(cs.drop_first(), CharClass::IdChar);
        lemma_run_len_bound(cs.drop_first(), CharClass::NotNewLine);
        lemma_string_body_bound(cs.drop_first(), false);
        if is_ws(c) {
            let k = run_len(cs, CharClass::Blank);
            if !(k < cs.len() && cs[k as int] == '\n') {
                lemma_lex_progress(cs.skip(k as int));
            }
        } else if c == '-' || is_digit(c) {
            lemma_numeric_progress(cs);
        }
    }
}

proof fn lemma_decimal_bound(cs: Seq<char>)
    ensures
        lex_decimal(cs) matches Ok((_, n)) ==> n <= cs.len(),
{
    let d1 = run_len(cs, CharClass::Digit);
    lemma_run_len_bound(cs, CharClass::Digit);
    let after = cs.skip(d1 as int);
    if after.len() > 0 && after[0] == '.' {
        lemma_run_len_bound(after.drop_first(), CharClass::Digit);
        let d2 = run_len(after.drop_first(), CharClass::Digit);
        let after2 = after.skip(1 + d2 as int);
        if after2.len() > 0 && (after2[0] == 'e' || after2[0] == 'E') {
            lemma_run_len_bound(after2.drop_first(), CharClass::ExpChar);
        }
    }
}

proof fn lemma_hexadecimal_bound(cs: Seq<char>)
    ensures
        lex_hexadecimal(cs) matches Ok((_, n)) ==> n <= cs.len(),
{
    let h = run_len(cs, CharClass::HexDigit);
    lemma_run_len_bound(cs, CharClass::HexDigit);
    let after = cs.skip(h as int);
    if after.len() > 0 && after[0] == '.' {
        lemma_run_len_bound(after.drop_first(), CharClass::Digit);
        let d2 = run_len(after.drop_first(), CharClass::Digit);
        let after2 = after.skip(1 + d2 as int);
        if after2.len() > 0 && (after2[0] == 'p' || after2[0] == 'P') {
            let x = after2.drop_first();
            let s: nat = if x.len() > 0 && (x[0] == '+' || x[0] == '-') {
                1
            } else {
                0
            };
            lemma_run_len_bound(x.skip(s as int), CharClass::Digit);
        }
    }
}

proof fn lemma_unsigned_bound(body: Seq<char>)
    ensures
        lex_unsigned(body) matches Ok((_, n)) ==> n <= body.len(),
        body.len() > 0 && is_digit(body[0]) ==> (lex_unsigned(body) matches Ok((_, n)) ==> n
            >= 1),
{
    if body.len() > 0 {
        lemma_decimal_bound(body);
        lemma_decimal_bound(body.drop_first());
        if body.len() > 1 {
            lemma_hexadecimal_bound(body.skip(2));
        }
        if body[0] != '0' && is_digit(body[0]) {
            lemma_run_len_bound(body, CharClass::Digit);
            assert(run_len(body, CharClass::Digit) >= 1);
        }
    }
}

proof fn lemma_numeric_progress_any(cs: Seq<char>)
    ensures
        lex_numeric(cs) matches Ok((_, n)) ==> n <= cs.len(),
{
    if cs.len() > 0 {
        lemma_unsigned_bound(cs);
        lemma_unsigned_bound(cs.drop_first());
    }
}

proof fn lemma_numeric_progress(cs: Seq<char>)
    requires
        cs.len() > 0,
        cs[0] == '-' || is_digit(cs[0]),
    ensures
        lex_numeric(cs) matches Ok((_, n)) ==> 1 <= n <= cs.len(),
{
    lemma_unsigned_bound(cs);
    lemma_unsigned_bound(cs.drop_first());
}

/// Digits keep their value from growing smaller as more are appended.
proof fn lemma_digits_value_grows(ds: Seq<char>, n: int, b: nat)
    requires
        0 <= n <= ds.len(),
        b >= 1,
    ensures
        digits_value(ds.take(n), b) <= digits_value(ds, b),
    decreases ds.len(),
{
    if n < ds.len() {
        assert(ds.drop_last().take(n) =~= ds.take(n));
        lemma_digits_value_grows(ds.drop_last(), n, b);
        assert(digits_value(ds.drop_last(), b) <= digits_value(ds.drop_last(), b) * b)
            by (nonlinear_arith)
            requires
                b >= 1,
        ;
    } else {
        assert(ds.take(n) =~= ds);
    }
}

/// The characters of the input.
pub fn chars_of(code: &str) -> (r: Vec<char>)
    ensures
        r@ == code@,
{
    let mut v: Vec<char> = Vec::new();
    let ghost items = spec_iter(code).remaining();
    for c in it: code.chars()
        invariant
            it.seq() == items,
            items == code@,
            v@ == it.seq().take(it.index() as int),
    {
        v.push(c);
        assert(v@ =~= it.seq().take(it.index() + 1));
    }
    assert(v@ =~= items);
    v
}

/// A tokenizer over SPIR-V assembly text.
pub struct Tokenizer {
    chars: Vec<char>,
    pos: usize,
}

impl Tokenizer {
    #[verifier::type_invariant]
    spec fn inv(self) -> bool {
        self.pos <= self.chars@.len()
    }

    /// The input that is not read yet.
    pub closed spec fn rest(self) -> Seq<char> {
        self.chars@.skip(self.pos as int)
    }

    pub fn new(code: &str) -> (r: Self)
        ensures
            r.rest() == code@,
    {
        let chars = chars_of(code);
        assert(chars@.skip(0) =~= chars@);
        Tokenizer { chars, pos: 0 }
    }

    /// The number of characters not read yet.
    fn remaining(&self) -> (r: usize)
        ensures
            r == self.rest().len(),
    {
        proof {
            use_type_invariant(self);
        }
        self.chars.len() - self.pos
    }

    fn peek(&self) -> (r: Option<char>)
        ensures
            self.rest().len() > 0 ==> r == Some(self.rest()[0]),
            self.rest().len() == 0 ==> r is None,
    {
        proof {
            use_type_invariant(self);
        }
        if self.pos < self.chars.len() {
            Some(self.chars[self.pos])
        } else {
            None
        }
    }

    fn peek_at(&self, k: usize) -> (r: Option<char>)
        ensures
            k < self.rest().len() ==> r == Some(self.rest()[k as int]),
            k >= self.rest().len() ==> r is None,
    {
        proof {
            use_type_invariant(self);
        }
        if k < self.chars.len() - self.pos {
            Some(self.chars[self.pos + k])
        } else {
            None
        }
    }

    fn skip(&mut self, n: usize)
        requires
            n <= old(self).rest().len(),
        ensures
            final(self).rest() == old(self).rest().skip(n as int),
    {
        proof {
            use_type_invariant(&*self);
        }
        assert(self.rest().len() == self.chars@.len() - self.pos);
        let total = self.chars.len();
        assert(self.pos + n <= total);
        self.pos = self.pos + n;
        assert(self.chars@.skip(self.pos as int) =~= old(self).rest().skip(n as int));
    }

    /// The length of the run of characters of the class `k` at the start of
    /// the unread input.
    fn run(&self, k: CharClass) -> (r: usize)
        ensures
            r == run_len(self.rest(), k),
            r <= self.rest().len(),
            self.rest().len() <= usize::MAX,
    {
        proof {
            use_type_invariant(self);
        }
        let total = self.chars.len();
        proof {
            lemma_run_len_bound(self.rest(), k);
            assert(self.rest().skip(0) =~= self.rest());
        }
        self.run_at(0, k)
    }

    /// The length of the run of characters of the class `k` at `off`
    /// characters into the unread input.
    fn run_at(&self, off: usize, k: CharClass) -> (r: usize)
        requires
            off <= self.rest().len(),
        ensures
            r == run_len(self.rest().skip(off as int), k),
    {
        proof {
            use_type_invariant(self);
        }
        let ghost cs = self.rest().skip(off as int);
        assert(self.rest().len() == self.chars@.len() - self.pos);
        let total = self.chars.len();
        let start = self.pos + off;
        assert(cs =~= self.chars@.skip(start as int));
        let mut i: usize = start;
        while i < self.chars.len()
            invariant
                start <= i <= self.chars@.len(),
                cs == self.chars@.skip(start as int),
                cs == self.rest().skip(off as int),
                run_len(cs, k) == (i - start) + run_len(self.chars@.skip(i as int), k),
            decreases self.chars@.len() - i,
        {
            let c = self.chars[i];
            let inside = match k {
                CharClass::Digit => c >= '0' && c <= '9',
                CharClass::HexDigit => (c >= '0' && c <= '9') || (c >= 'a' && c <= 'f') || (c
                    >= 'A' && c <= 'F'),
                CharClass::IdChar => (c >= 'a' && c <= 'z') || (c >= 'A' && c <= 'Z') || (c >= '0'
                    && c <= '9') || c == '_',
                CharClass::ExpChar => (c >= '0' && c <= '9') || c == '+' || c == '-',
                CharClass::NotNewLine => c != '\n',
                CharClass::Blank => c == ' ' || c == '\t' || c == '\x0C' || c == '\r',
            };
            assert(self.chars@.skip(i as int)[0] == c);
            assert(inside == in_class(c, k));
            if !inside {
                assert(run_len(self.chars@.skip(i as int), k) == 0);
                return i - start;
            }
            assert(self.chars@.skip(i as int).drop_first() =~= self.chars@.skip(i + 1));
            i = i + 1;
        }
        i - start
    }

    /// Whether every character of `rest()[from..to]` is in the class `k`.
    fn all_in(&self, from: usize, to: usize, k: CharClass) -> (r: bool)
        requires
            from <= to <= self.rest().len(),
        ensures
            r == forall|i: int| from <= i < to ==> in_class(#[trigger] self.rest()[i], k),
    {
        let n = self.run_at(from, k);
        proof {
            let cs = self.rest().skip(from as int);
            lemma_run_len_bound(cs, k);
            lemma_run_len_prefix(cs, to - from, k);
            lemma_run_len_all(cs.take(to - from), k);
            assert forall|i: int| from <= i < to implies self.rest()[i] == cs.take(to - from)[i
                - from] by {}
            if forall|i: int| from <= i < to ==> in_class(#[trigger] self.rest()[i], k) {
                assert forall|j: int| 0 <= j < cs.take(to - from).len() implies in_class(
                    #[trigger] cs.take(to - from)[j],
                    k,
                ) by {
                    assert(cs.take(to - from)[j] == self.rest()[j + from]);
                }
            }
            if n >= to - from {
                assert forall|i: int| from <= i < to implies in_class(
                    #[trigger] self.rest()[i],
                    k,
                ) by {
                    assert(cs.take(to - from)[i - from] == self.rest()[i]);
                }
            }
        }
        n >= to - from
    }

    /// The characters `rest()[from..to]` as a string.
    fn text(&self, from: usize, to: usize) -> (r: String)
        requires
            from <= to <= self.rest().len(),
        ensures
            r@ == self.rest().subrange(from as int, to as int),
    {
        proof {
            use_type_invariant(self);
        }
        let mut s = String::new();
        let total = self.chars.len();
        let mut i = from;
        while i < to
            invariant
                from <= i <= to,
                to <= self.rest().len(),
                self.pos <= self.chars@.len(),
                self.rest().len() == self.chars@.len() - self.pos,
                total == self.chars@.len(),
                s@ == self.rest().subrange(from as int, i as int),
            decreases to - i,
        {
            push_char(&mut s, self.chars[self.pos + i]);
            assert(s@ =~= self.rest().subrange(from as int, i + 1));
            i = i + 1;
        }
        s
    }

    /// The value of the digits `rest()[from..to]` in base `b`, if it fits an
    /// `i64`.
    fn digits(&self, from: usize, to: usize, b: u64, k: CharClass) -> (r: Option<i64>)
        requires
            from <= to <= self.rest().len(),
            (b == 10 && k == CharClass::Digit) || (b == 16 && k == CharClass::HexDigit),
            forall|i: int|
                from <= i < to ==> #[trigger] in_class(self.rest()[i], k),
        ensures
            ({
                let v = digits_value(self.rest().subrange(from as int, to as int), b as nat);
                match r {
                    Some(x) => v <= i64_max() && x == v,
                    None => v > i64_max(),
                }
            }),
    {
        proof {
            use_type_invariant(self);
        }
        let ghost ds = self.rest().subrange(from as int, to as int);
        let mut v: u64 = 0;
        let total = self.chars.len();
        let mut i = from;
        while i < to
            invariant
                from <= i <= to,
                to <= self.rest().len(),
                self.pos <= self.chars@.len(),
                self.rest().len() == self.chars@.len() - self.pos,
                total == self.chars@.len(),
                (b == 10 && k == CharClass::Digit) || (b == 16 && k == CharClass::HexDigit),
                ds == self.rest().subrange(from as int, to as int),
                forall|j: int|
                    from <= j < to ==> #[trigger] in_class(self.rest()[j], k),
                v == digits_value(ds.take(i - from), b as nat),
                v <= i64_max(),
            decreases to - i,
        {
            let c = self.chars[self.pos + i];
            assert(c == self.rest()[i as int]);
            assert(in_class(self.rest()[i as int], k));
            let d: u64 = if c >= '0' && c <= '9' {
                (c as u32 - '0' as u32) as u64
            } else if c >= 'a' && c <= 'f' {
                (c as u32 - 'a' as u32 + 10) as u64
            } else {
                (c as u32 - 'A' as u32 + 10) as u64
            };
            assert(d == digit_value(c));
            assert(ds.take(i + 1 - from).drop_last() =~= ds.take(i - from));
            assert(ds.take(i + 1 - from).last() == c);
            if v > (0x7fff_ffff_ffff_ffffu64 - d) / b {
                proof {
                    assert(v * b + d > i64_max()) by (nonlinear_arith)
                        requires
                            v > (0x7fff_ffff_ffff_ffff - d) / (b as int),
                            b >= 1,
                            d >= 0,
                    ;
                    lemma_digits_value_grows(ds, i + 1 - from, b as nat);
                    assert(ds.take(to - from) =~= ds);
                }
                return None;
            }
            assert(v * b + d <= i64_max()) by (nonlinear_arith)
                requires
                    v <= (0x7fff_ffff_ffff_ffff - d) / (b as int),
                    b >= 1,
                    d <= 0x7fff_ffff_ffff_ffff,
            ;
            v = v * b + d;
            i = i + 1;
        }
        assert(ds.take(to - from) =~= ds);
        Some(v as i64)
    }

    pub fn tokenize_comment(&mut self) -> (r: Result<Token, Error>)
        ensures
            r matches Ok(t) && (t@, (old(self).rest().len() - final(self).rest().len()) as nat)
                == lex_comment(old(self).rest()),
            final(self).rest() == old(self).rest().skip(lex_comment(old(self).rest()).1 as int),
    {
        if self.peek().is_none() {
            return Ok(Token::Comment(String::new()));
        }
        self.skip(1);
        let k = self.run(CharClass::NotNewLine);
        proof {
            lemma_run_len_bound(self.rest(), CharClass::NotNewLine);
            assert(old(self).rest().drop_first() =~= self.rest());
        }
        let s = self.text(0, k);
        self.skip(k);
        proof {
            assert(old(self).rest().subrange(1, 1 + k as int) =~= s@);
            assert(self.rest() =~= old(self).rest().skip(1 + k));
        }
        Ok(Token::Comment(s))
    }

    pub fn tokenize_idref(&mut self) -> (r: Result<Token, Error>)
        ensures
            r matches Ok(t) && (t@, (old(self).rest().len() - final(self).rest().len()) as nat)
                == lex_idref(old(self).rest()),
            final(self).rest() == old(self).rest().skip(lex_idref(old(self).rest()).1 as int),
    {
        if self.peek().is_none() {
            return Ok(Token::IdRef(String::new()));
        }
        self.skip(1);
        let k = self.run(CharClass::IdChar);
        proof {
            lemma_run_len_bound(self.rest(), CharClass::IdChar);
            assert(old(self).rest().drop_first() =~= self.rest());
        }
        let s = self.text(0, k);
        self.skip(k);
        proof {
            assert(old(self).rest().subrange(1, 1 + k as int) =~= s@);
            assert(self.rest() =~= old(self).rest().skip(1 + k));
        }
        Ok(Token::IdRef(s))
    }

    pub fn tokenize_ident(&mut self) -> (r: Result<Token, Error>)
        ensures
            r matches Ok(t) && (t@, (old(self).rest().len() - final(self).rest().len()) as nat)
                == lex_ident(old(self).rest()),
            final(self).rest() == old(self).rest().skip(lex_ident(old(self).rest()).1 as int),
    {
        let k = self.run(CharClass::IdChar);
        proof {
            lemma_run_len_bound(self.rest(), CharClass::IdChar);
        }
        let s = self.text(0, k);
        self.skip(k);
        Ok(Token::Ident(s))
    }

    pub fn tokenize_string_literal(&mut self) -> (r: Result<Token, Error>)
        ensures
            r matches Ok(t) && (t@, (old(self).rest().len() - final(self).rest().len()) as nat)
                == lex_string(old(self).rest()),
            final(self).rest() == old(self).rest().skip(lex_string(old(self).rest()).1 as int),
    {
        if self.peek().is_none() {
            return Ok(Token::Literal(Lit::String(String::new())));
        }
        self.skip(1);
        let ghost start = self.rest();
        let mut string = String::new();
        let mut escape = false;
        let ghost mut used: nat = 0;
        loop
            invariant_except_break
                string_body(start, false) == ({
                    let r = string_body(self.rest(), escape);
                    (string@ + r.0, used + r.1)
                }),
            invariant
                start == old(self).rest().drop_first(),
                used <= start.len(),
                self.rest() == start.skip(used as int),
            ensures
                string_body(start, false) == (string@, used),
                self.rest() == start.skip(used as int),
            decreases self.rest().len(),
        {
            let c = match self.peek() {
                Some(c) => c,
                None => {
                    assert(string@ + Seq::<char>::empty() =~= string@);
                    break;
                },
            };
            let ghost cs = self.rest();
            self.skip(1);
            proof {
                assert(cs.drop_first() =~= self.rest());
            }
            if escape {
                escape = false;
                push_char(&mut string, c);
                proof {
                    used = used + 1;
                    assert(self.rest() =~= start.skip(used as int));
                    let r = string_body(self.rest(), false);
                    assert(string@ + r.0 =~= old(self).rest().take(0) + (string@.drop_last()
                        + (seq![c] + r.0)));
                }
            } else if c == '\\' {
                escape = true;
                proof {
                    used = used + 1;
                    assert(self.rest() =~= start.skip(used as int));
                }
            } else if c == '"' {
                proof {
                    used = used + 1;
                    assert(self.rest() =~= start.skip(used as int));
                    assert(string@ + Seq::<char>::empty() =~= string@);
                }
                break;
            } else {
                push_char(&mut string, c);
                proof {
                    used = used + 1;
                    assert(self.rest() =~= start.skip(used as int));
                    let r = string_body(self.rest(), false);
                    assert(string@ + r.0 =~= string@.drop_last() + (seq![c] + r.0));
                }
            }
        }
        proof {
            assert(self.rest() =~= old(self).rest().skip(1 + used as int));
        }
        Ok(Token::Literal(Lit::String(string)))
    }
}


/// The result of a sub-lexer, with `k` more characters counted as read.
pub open spec fn shifted<T>(r: Result<(T, nat), Error>, k: nat) -> Result<(T, nat), Error> {
    match r {
        Ok((t, n)) => Ok((t, n + k)),
        Err(e) => Err(e),
    }
}

/// The view of an optional token.
pub open spec fn opt_view(t: Option<Token>) -> Option<TokenSpec> {
    match t {
        Some(x) => Some(x@),
        None => None,
    }
}

impl Tokenizer {
    pub fn tokenize_numeric_literal_decimal(&mut self) -> (r: Result<Lit, Error>)
        ensures
            match lex_decimal(old(self).rest()) {
                Ok((l, n)) => r matches Ok(x) && x@ == l && final(self).rest() == old(self).rest().skip(n as int),
                Err(e) => r == Err::<Lit, Error>(e),
            },
    {
        let ghost cs = self.rest();
        let d1 = self.run(CharClass::Digit);
        proof {
            lemma_run_len_bound(cs, CharClass::Digit);
        }
        if self.peek_at(d1) == Some('.') {
            let mut m = String::new();
            push_char(&mut m, '0');
            let int_digits = self.text(0, d1);
            crate::text::push_str(&mut m, int_digits.as_str());
            push_char(&mut m, '.');
            self.skip(d1 + 1);
            proof {
                assert(cs.skip(d1 as int).drop_first() =~= self.rest());
            }
            let d2 = self.run(CharClass::Digit);
            let frac = self.text(0, d2);
            crate::text::push_str(&mut m, frac.as_str());
            proof {
                assert(self.rest().subrange(0, d2 as int) =~= cs.skip(d1 as int).subrange(
                    1,
                    1 + d2 as int,
                ));
            }
            self.skip(d2);
            proof {
                assert(self.rest() =~= cs.skip(d1 as int).skip(1 + d2 as int));
            }
            match self.peek() {
                Some(c) => {
                    if c == 'e' || c == 'E' {
                        let ghost after2 = self.rest();
                        self.skip(1);
                        proof {
                            assert(self.rest() =~= after2.drop_first());
                        }
                        let x = self.run(CharClass::ExpChar);
                        proof {
                            lemma_run_len_bound(self.rest(), CharClass::ExpChar);
                        }
                        let signed = x > 0 && (self.peek() == Some('+') || self.peek() == Some(
                            '-',
                        ));
                        let start: usize = if signed {
                            1
                        } else {
                            0
                        };
                        let ok = x > start && self.all_in(start, x, CharClass::Digit);
                        proof {
                            let exp = after2.subrange(1, 1 + x as int);
                            assert(exp =~= self.rest().subrange(0, x as int));
                            let d = if exp.len() > 0 && (exp[0] == '+' || exp[0] == '-') {
                                exp.drop_first()
                            } else {
                                exp
                            };
                            assert(d =~= self.rest().subrange(start as int, x as int));
                            lemma_run_len_all(d, CharClass::Digit);
                            if ok {
                                assert forall|i: int| 0 <= i < d.len() implies in_class(
                                    #[trigger] d[i],
                                    CharClass::Digit,
                                ) by {
                                    assert(d[i] == self.rest()[i + start]);
                                }
                            } else if x > start {
                                let i = choose|i: int|
                                    start <= i < x && !in_class(
                                        #[trigger] self.rest()[i],
                                        CharClass::Digit,
                                    );
                                assert(d[i - start] == self.rest()[i]);
                            }
                            assert(ok == exponent_ok(exp));
                        }
                        if !ok {
                            return Err(Error::InvalidNumber);
                        }
                        push_char(&mut m, c);
                        let exp = self.text(0, x);
                        crate::text::push_str(&mut m, exp.as_str());
                        self.skip(x);
                        proof {
                            assert(self.rest() =~= cs.skip(d1 + 1 + d2 + 1 + x));
                            assert(m@ =~= seq!['0'] + cs.subrange(0, d1 as int) + seq!['.']
                                + cs.skip(d1 as int).subrange(1, 1 + d2 as int) + seq![c]
                                + exp@);
                        }
                        return Ok(Lit::Float(m, 0));
                    }
                },
                None => {},
            }
            proof {
                assert(m@ =~= seq!['0'] + cs.subrange(0, d1 as int) + seq!['.'] + cs.skip(
                    d1 as int,
                ).subrange(1, 1 + d2 as int));
            }
            Ok(Lit::Float(m, 0))
        } else {
            proof {
                assert forall|i: int| 0 <= i < d1 implies in_class(
                    #[trigger] self.rest()[i],
                    CharClass::Digit,
                ) by {}
            }
            match self.digits(0, d1, 10, CharClass::Digit) {
                Some(v) => {
                    self.skip(d1);
                    Ok(Lit::Int(v))
                },
                None => Err(Error::InvalidNumber),
            }
        }
    }

    /// The binary exponent of a hexadecimal float, after its `p`.
    fn tokenize_binary_exponent(&mut self) -> (r: Result<i32, Error>)
        ensures
            match lex_binary_exponent(old(self).rest()) {
                Ok((e, n)) => r == Ok::<i32, Error>(e as i32) && final(self).rest() == old(self).rest().skip(n as int) && n <= old(self).rest().len(),
                Err(err) => r == Err::<i32, Error>(err),
            },
    {
        let ghost cs = self.rest();
        let first = self.peek();
        let signed = first == Some('+') || first == Some('-');
        let neg = first == Some('-');
        let s: usize = if signed {
            1
        } else {
            0
        };
        let len = self.remaining();
        let e = self.run_at(s, CharClass::Digit);
        proof {
            lemma_run_len_bound(cs.skip(s as int), CharClass::Digit);
            assert forall|i: int| s <= i < s + e implies in_class(
                #[trigger] self.rest()[i],
                CharClass::Digit,
            ) by {
                assert(self.rest()[i] == cs.skip(s as int)[i - s]);
            }
        }
        if e == 0 {
            return Err(Error::InvalidNumber);
        }
        let v = match self.digits(s, s + e, 10, CharClass::Digit) {
            Some(v) => v,
            None => return Err(Error::InvalidNumber),
        };
        if neg && v <= 0x8000_0000 {
            self.skip(s + e);
            Ok((-v) as i32)
        } else if !neg && v <= 0x7fff_ffff {
            self.skip(s + e);
            Ok(v as i32)
        } else {
            Err(Error::InvalidNumber)
        }
    }

    pub fn tokenize_numeric_literal_hexadecimal(&mut self) -> (r: Result<Lit, Error>)
        ensures
            match lex_hexadecimal(old(self).rest()) {
                Ok((l, n)) => r matches Ok(x) && x@ == l && final(self).rest() == old(self).rest().skip(n as int),
                Err(e) => r == Err::<Lit, Error>(e),
            },
    {
        let ghost cs = self.rest();
        let h = self.run(CharClass::HexDigit);
        proof {
            lemma_run_len_bound(cs, CharClass::HexDigit);
        }
        let one = h == 1 && self.peek() == Some('1');
        proof {
            if h == 1 {
                assert((cs.subrange(0, 1) =~= seq!['1']) == (cs[0] == '1'));
            } else {
                assert(cs.subrange(0, h as int).len() != 1);
            }
        }
        if self.peek_at(h) == Some('.') && one {
            let mut m = String::new();
            push_char(&mut m, '1');
            push_char(&mut m, '.');
            self.skip(h + 1);
            let d2 = self.run(CharClass::Digit);
            let frac = self.text(0, d2);
            crate::text::push_str(&mut m, frac.as_str());
            proof {
                assert(cs.skip(h as int).drop_first() =~= cs.skip(h + 1));
                assert(m@ =~= seq!['1', '.'] + cs.skip(h as int).subrange(1, 1 + d2 as int));
            }
            self.skip(d2);
            proof {
                assert(self.rest() =~= cs.skip(h as int).skip(1 + d2 as int));
            }
            match self.peek() {
                Some(c) => {
                    if c == 'p' || c == 'P' {
                        self.skip(1);
                        proof {
                            assert(self.rest() =~= cs.skip(h as int).skip(1 + d2 as int).drop_first());
                        }
                        let ghost prev = self.rest();
                        let e = self.tokenize_binary_exponent()?;
                        proof {
                            let n = match lex_binary_exponent(prev) {
                                Ok((_, n)) => n,
                                Err(_) => 0,
                            };
                            assert(self.rest() =~= cs.skip(h + 1 + d2 + 1 + n));
                        }
                        return Ok(Lit::Float(m, e));
                    }
                },
                None => {},
            }
            Ok(Lit::Float(m, 0))
        } else {
            if h == 0 {
                return Err(Error::InvalidNumber);
            }
            proof {
                assert forall|i: int| 0 <= i < h implies in_class(
                    #[trigger] self.rest()[i],
                    CharClass::HexDigit,
                ) by {}
            }
            match self.digits(0, h, 16, CharClass::HexDigit) {
                Some(v) => {
                    self.skip(h);
                    Ok(Lit::Int(v))
                },
                None => Err(Error::InvalidNumber),
            }
        }
    }
}


impl Tokenizer {
    /// A numeric literal without its sign.
    #[verifier::rlimit(30)]
    fn tokenize_unsigned(&mut self) -> (r: Result<Lit, Error>)
        ensures
            match lex_unsigned(old(self).rest()) {
                Ok((l, n)) => r matches Ok(x) && x@ == l && final(self).rest() == old(self).rest().skip(n as int),
                Err(e) => r == Err::<Lit, Error>(e),
            },
    {
        let ghost body = self.rest();
        let c = match self.peek() {
            Some(c) => c,
            None => return Err(Error::UnexpectedEndOfInput),
        };
        if c != '0' {
            return self.tokenize_numeric_literal_decimal();
        }
        self.skip(1);
        proof {
            assert(self.rest() =~= body.drop_first());
            lemma_decimal_bound(body.drop_first());
            if body.len() > 1 {
                lemma_hexadecimal_bound(body.skip(2));
            }
        }
        let hex = match self.peek() {
            Some(x) => x == 'x' || x == 'X',
            None => false,
        };
        if hex {
            self.skip(1);
            proof {
                assert(self.rest() =~= body.skip(2));
            }
            let l = self.tokenize_numeric_literal_hexadecimal()?;
            proof {
                let n = match lex_hexadecimal(body.skip(2)) {
                    Ok((_, n)) => n,
                    Err(_) => 0,
                };
                assert(self.rest() =~= body.skip(n + 2int));
            }
            Ok(l)
        } else {
            let l = self.tokenize_numeric_literal_decimal()?;
            proof {
                let n = match lex_decimal(body.drop_first()) {
                    Ok((_, n)) => n,
                    Err(_) => 0,
                };
                assert(self.rest() =~= body.skip(n + 1int));
            }
            Ok(l)
        }
    }

    /// Tokenize a SPIR-V assembly numeric literal that can be decimal,
    /// hexadecimal, integer or floating-point, with an optional minus sign.
    pub fn tokenize_numeric_literal(&mut self) -> (r: Result<Token, Error>)
        ensures
            match lex_numeric(old(self).rest()) {
                Ok((t, n)) => r matches Ok(x) && x@ == t && final(self).rest() == old(self).rest().skip(n as int),
                Err(e) => r == Err::<Token, Error>(e),
            },
    {
        let ghost cs = self.rest();
        let first = match self.peek() {
            Some(c) => c,
            None => return Err(Error::UnexpectedEndOfInput),
        };
        if first != '-' {
            let l = self.tokenize_unsigned()?;
            return Ok(Token::Literal(l));
        }
        self.skip(1);
        proof {
            assert(self.rest() =~= cs.drop_first());
            lemma_numeric_progress_any(cs);
        }
        let l = self.tokenize_unsigned()?;
        let lit = match l {
            Lit::Int(i) => Lit::Int(-i),
            Lit::Float(m, e) => {
                let mut t = String::new();
                push_char(&mut t, '-');
                crate::text::push_str(&mut t, m.as_str());
                Lit::Float(t, e)
            },
            Lit::String(x) => Lit::String(x),
        };
        proof {
            let n = match lex_unsigned(cs.drop_first()) {
                Ok((_, n)) => n,
                Err(_) => 0,
            };
            assert(self.rest() =~= cs.skip(n + 1int));
        }
        Ok(Token::Literal(lit))
    }
}

/// The views of a sequence of tokens.
pub open spec fn tokens_view(ts: Seq<Token>) -> Seq<TokenSpec> {
    ts.map_values(|t: Token| t@)
}

/// `p` before the tokens of `r`, if `r` holds tokens.
pub open spec fn prepend(p: Seq<TokenSpec>, r: Result<Seq<TokenSpec>, Error>) -> Result<
    Seq<TokenSpec>,
    Error,
> {
    match r {
        Ok(ts) => Ok(p + ts),
        Err(e) => Err(e),
    }
}

impl Tokenizer {
    /// The next token, or none at the end of the input. Blanks before a
    /// token are skipped; a line feed is a token of its own.
    #[verifier::loop_isolation(false)]
    #[verifier::rlimit(40)]
    #[verifier::spinoff_prover]
    pub fn tokenize(&mut self) -> (r: Result<Option<Token>, Error>)
        ensures
            match lex(old(self).rest()) {
                Ok((t, n)) => r matches Ok(x) && opt_view(x) == t && final(self).rest() == old(self).rest().skip(n as int),
                Err(e) => r == Err::<Option<Token>, Error>(e),
            },
    {
        let ghost cs = self.rest();
        let ghost mut k: nat = 0;
        loop
            invariant
                k <= cs.len(),
                self.rest() == cs.skip(k as int),
                lex(cs) == shifted(lex(self.rest()), k),
            decreases self.rest().len(),
        {
            proof {
                lemma_lex_unfold(self.rest());
            }
            let c = match self.peek() {
                Some(c) => c,
                None => {
                    proof {
                        assert(cs.skip(k as int) =~= cs.skip(k as int).skip(0));
                    }
                    return Ok(None);
                },
            };
            if c == ' ' || c == '\t' || c == '\n' || c == '\x0C' || c == '\r' {
                let ghost rest = self.rest();
                let b = self.run(CharClass::Blank);
                proof {
                    lemma_run_len_bound(rest, CharClass::Blank);
                }
                if self.peek_at(b) == Some('\n') {
                    self.skip(b + 1);
                    proof {
                        assert(self.rest() =~= cs.skip(k + b + 1));
                    }
                    return Ok(Some(Token::NewLine));
                }
                self.skip(b);
                proof {
                    assert(b >= 1);
                    assert(self.rest() =~= cs.skip(k + b));
                    k = (k + b) as nat;
                }
            } else {
                break;
            }
        }
        let ghost rest = self.rest();
        proof {
            lemma_lex_unfold(rest);
        }
        let t = self.token();
        proof {
            match lex_token(rest) {
                Ok((_, n)) => {
                    assert(self.rest() =~= cs.skip(k + n as int));
                },
                Err(_) => {},
            }
        }
        t
    }

    /// The token that starts at the next character, which is not white space.
    fn token(&mut self) -> (r: Result<Option<Token>, Error>)
        requires
            old(self).rest().len() > 0,
            !is_ws(old(self).rest()[0]),
        ensures
            match lex_token(old(self).rest()) {
                Ok((t, n)) => r matches Ok(x) && opt_view(x) == t && final(self).rest() == old(self).rest().skip(n as int) && n <= old(self).rest().len(),
                Err(e) => r == Err::<Option<Token>, Error>(e),
            },
    {
        let ghost rest = self.rest();
        proof {
            lemma_lex_progress(rest);
            lemma_lex_unfold(rest);
        }
        let c = match self.peek() {
            Some(c) => c,
            None => return Ok(None),
        };
        if c == ';' {
            let t = self.tokenize_comment()?;
            Ok(Some(t))
        } else if c == '=' {
            self.skip(1);
            Ok(Some(Token::Eq))
        } else if c == '%' {
            let t = self.tokenize_idref()?;
            Ok(Some(t))
        } else if c == '-' || (c >= '0' && c <= '9') {
            let t = self.tokenize_numeric_literal()?;
            Ok(Some(t))
        } else if c == '"' {
            let t = self.tokenize_string_literal()?;
            Ok(Some(t))
        } else if (c >= 'a' && c <= 'z') || (c >= 'A' && c <= 'Z') || c == '_' {
            let t = self.tokenize_ident()?;
            Ok(Some(t))
        } else {
            Err(Error::UnexpectedCharacter(c))
        }
    }

    /// The next token, an error, or none at the end of the input.
    pub fn next(&mut self) -> (r: Option<Result<Token, Error>>)
        ensures
            match lex(old(self).rest()) {
                Ok((Some(t), n)) => r matches Some(Ok(x)) && x@ == t && final(self).rest() == old(self).rest().skip(n as int),
                Ok((None, _)) => r is None,
                Err(e) => r == Some(Err::<Token, Error>(e)),
            },
    {
        match self.tokenize() {
            Ok(Some(t)) => Some(Ok(t)),
            Ok(None) => None,
            Err(e) => Some(Err(e)),
        }
    }

    /// All the remaining tokens, or the first error.
    #[verifier::loop_isolation(false)]
    pub fn tokens(self) -> (r: Result<Vec<Token>, Error>)
        ensures
            match lex_all(self.rest()) {
                Ok(ts) => r matches Ok(v) && tokens_view(v@) == ts,
                Err(e) => r == Err::<Vec<Token>, Error>(e),
            },
    {
        let mut this = self;
        let ghost cs = this.rest();
        let mut out: Vec<Token> = Vec::new();
        loop
            invariant
                lex_all(cs) == prepend(tokens_view(out@), lex_all(this.rest())),
            decreases this.rest().len(),
        {
            let ghost rest = this.rest();
            proof {
                lemma_lex_progress(rest);
            }
            match this.tokenize() {
                Ok(Some(t)) => {
                    proof {
                        let tv = t@;
                        assert(tokens_view(out@.push(t)) =~= tokens_view(out@) + seq![tv]);
                        let next = lex_all(this.rest());
                        assert(lex_all(rest) == prepend(seq![tv], next));
                        match next {
                            Ok(ts) => {
                                assert(tokens_view(out@) + (seq![tv] + ts) =~= (tokens_view(out@)
                                    + seq![tv]) + ts);
                            },
                            Err(_) => {},
                        }
                    }
                    out.push(t);
                },
                Ok(None) => {
                    proof {
                        assert(tokens_view(out@) + Seq::<TokenSpec>::empty() =~= tokens_view(
                            out@,
                        ));
                    }
                    return Ok(out);
                },
                Err(e) => {
                    return Err(e);
                },
            }
        }
    }
}

} // verus!
