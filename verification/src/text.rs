//! Decimal and hexadecimal rendering of integers into strings.
use vstd::prelude::*;

use vstd::string::StringExecFns;

verus! {

/// The character of a digit below 16, lowercase for the letters.
pub open spec fn digit_char(d: nat) -> char {
    if d == 0 { '0' }
    else if d == 1 { '1' }
    else if d == 2 { '2' }
    else if d == 3 { '3' }
    else if d == 4 { '4' }
    else if d == 5 { '5' }
    else if d == 6 { '6' }
    else if d == 7 { '7' }
    else if d == 8 { '8' }
    else if d == 9 { '9' }
    else if d == 10 { 'a' }
    else if d == 11 { 'b' }
    else if d == 12 { 'c' }
    else if d == 13 { 'd' }
    else if d == 14 { 'e' }
    else { 'f' }
}

/// The digits of `n` in base `b` (2 to 16), most significant first, with no
/// leading zero; zero is the single digit `0`.
pub open spec fn radix_chars(n: nat, b: nat) -> Seq<char>
    recommends
        2 <= b <= 16,
    decreases n,
    when b >= 2
{
    if n < b {
        seq![digit_char(n)]
    } else {
        proof {
            assert(n / b < n) by (nonlinear_arith)
                requires
                    n >= b,
                    b >= 2,
            ;
        }
        radix_chars(n / b, b).push(digit_char(n % b))
    }
}

/// The decimal digits of `n`.
pub open spec fn dec_chars(n: nat) -> Seq<char> {
    radix_chars(n, 10)
}

/// The lowercase hexadecimal digits of `n`.
pub open spec fn hex_chars(n: nat) -> Seq<char> {
    radix_chars(n, 16)
}

/// The decimal rendering of a signed integer: a minus sign before the digits
/// of its magnitude when it is negative.
pub open spec fn signed_dec_chars(n: int) -> Seq<char> {
    if n < 0 {
        seq!['-'] + dec_chars((-n) as nat)
    } else {
        dec_chars(n as nat)
    }
}

/// Appends a character to a string.
///
/// Calls `String::push`, which appends the given character to the end of the
/// string.
#[verifier::external_body]
pub(crate) fn push_char(s: &mut String, c: char)
    ensures
        final(s)@ == old(s)@.push(c),
{
    s.push(c);
}

fn digit(d: u64) -> (c: char)
    requires
        d < 16,
    ensures
        c == digit_char(d as nat),
{
    match d {
        0 => '0',
        1 => '1',
        2 => '2',
        3 => '3',
        4 => '4',
        5 => '5',
        6 => '6',
        7 => '7',
        8 => '8',
        9 => '9',
        10 => 'a',
        11 => 'b',
        12 => 'c',
        13 => 'd',
        14 => 'e',
        _ => 'f',
    }
}

/// Appends the digits of `n` in base `b` to `s`.
pub fn push_radix(s: &mut String, n: u64, b: u64)
    requires
        2 <= b <= 16,
    ensures
        final(s)@ == old(s)@ + radix_chars(n as nat, b as nat),
    decreases n,
{
    if n < b {
        push_char(s, digit(n));
    } else {
        assert(n / b < n) by (nonlinear_arith)
            requires
                n >= b,
                b >= 2,
        ;
        push_radix(s, n / b, b);
        push_char(s, digit(n % b));
        assert(old(s)@ + radix_chars(n as nat, b as nat) =~= old(s)@ + radix_chars(
            (n / b) as nat,
            b as nat,
        ) + seq![digit_char((n % b) as nat)]);
    }
}

/// Appends the decimal digits of `n` to `s`.
pub fn push_dec(s: &mut String, n: u64)
    ensures
        final(s)@ == old(s)@ + dec_chars(n as nat),
{
    push_radix(s, n, 10);
}

/// Appends the lowercase hexadecimal digits of `n` to `s`.
pub fn push_hex(s: &mut String, n: u64)
    ensures
        final(s)@ == old(s)@ + hex_chars(n as nat),
{
    push_radix(s, n, 16);
}

/// Appends the decimal rendering of the signed integer `n` to `s`.
pub fn push_signed_dec(s: &mut String, n: i64)
    ensures
        final(s)@ == old(s)@ + signed_dec_chars(n as int),
{
    if n < 0 {
        push_char(s, '-');
        let m: u64 = if n == i64::MIN {
            9223372036854775808u64
        } else {
            (-n) as u64
        };
        push_dec(s, m);
        assert(old(s)@ + signed_dec_chars(n as int) =~= old(s)@.push('-') + dec_chars(m as nat));
    } else {
        push_dec(s, n as u64);
    }
}

/// Appends `t` to `s`.
pub fn push_str(s: &mut String, t: &str)
    ensures
        final(s)@ == old(s)@ + t@,
{
    s.append(t);
}

/// A string holding the characters of `t`.
pub fn owned(t: &str) -> (r: String)
    ensures
        r@ == t@,
{
    let mut s = String::new();
    push_str(&mut s, t);
    s
}

/// The decimal digits of a number are never empty, and its first digit is
/// zero only for zero itself.
pub proof fn lemma_radix_chars_shape(n: nat, b: nat)
    requires
        2 <= b <= 16,
    ensures
        radix_chars(n, b).len() >= 1,
        n > 0 ==> radix_chars(n, b)[0] != '0',
    decreases n,
{
    if n >= b {
        assert(1 <= n / b < n) by (nonlinear_arith)
            requires
                n >= b,
                b >= 2,
        ;
        lemma_radix_chars_shape(n / b, b);
        assert(radix_chars(n, b) == radix_chars(n / b, b).push(digit_char(n % b)));
    }
}

} // verus!
