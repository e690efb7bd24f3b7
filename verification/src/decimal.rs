//! Writing an integer in base 10, the inverse of parsing.

use crate::parser::{
    all_digits, digits_value, has_sign, in_domain, is_digit, is_literal, lemma_parse_literal,
    literal_value, parse_spec, ParseFailure,
};
use vstd::prelude::*;

verus! {

/// The ASCII digit that stands for `d`, for `d` from 0 to 9.
pub open spec fn digit_char(d: int) -> char {
    (0x30 + d) as u8 as char
}

/// The digits of `n` in base 10, most significant first, without leading
/// zeros.
pub open spec fn decimal_digits(n: nat) -> Seq<char>
    decreases n,
{
    if n < 10 {
        seq![digit_char(n as int)]
    } else {
        decimal_digits(n / 10).push(digit_char((n % 10) as int))
    }
}

/// The usual way of writing `n` in base 10: a `-` for a negative number,
/// then its digits without leading zeros.
pub open spec fn decimal(n: int) -> Seq<char> {
    if n < 0 {
        seq!['-'] + decimal_digits((-n) as nat)
    } else {
        decimal_digits(n as nat)
    }
}

/// The digits of a natural number are digits, and read back as that number.
pub proof fn lemma_decimal_digits_value(n: nat)
    ensures
        decimal_digits(n).len() > 0,
        all_digits(decimal_digits(n)),
        digits_value(decimal_digits(n)) == n,
        !has_sign(decimal_digits(n)),
    decreases n,
{
    if n < 10 {
        let s = decimal_digits(n);
        assert(s.drop_last() =~= Seq::<char>::empty());
        assert(digits_value(s.drop_last()) == 0);
        assert(is_digit(s[0]));
    } else {
        let head = decimal_digits(n / 10);
        let s = decimal_digits(n);
        lemma_decimal_digits_value(n / 10);
        assert(s.drop_last() =~= head);
        assert(is_digit(s.last()));
        assert(s.first() == head.first());
        assert forall|i: int| 0 <= i < s.len() implies is_digit(#[trigger] s[i]) by {
            if i < head.len() {
                assert(s[i] == head[i]);
            }
        }
    }
}

/// Writing an `i32` in base 10 and parsing the text gives the number back.
pub proof fn lemma_parse_decimal(n: int)
    requires
        in_domain(n),
    ensures
        is_literal(decimal(n)),
        literal_value(decimal(n)) == n,
        parse_spec(decimal(n)) == Ok::<i32, ParseFailure>(n as i32),
{
    let s = decimal(n);
    if n < 0 {
        let m = decimal_digits((-n) as nat);
        lemma_decimal_digits_value((-n) as nat);
        assert(s.first() == '-');
        assert(s.drop_first() =~= m);
    } else {
        lemma_decimal_digits_value(n as nat);
    }
    lemma_parse_literal(s);
}

/// Appends one character to a string. This is `String::push` of the
/// standard library, which puts `c` at the end of `text` and leaves the
/// characters before it as they were.
#[verifier::external_body]
fn push_char(text: &mut String, c: char)
    ensures
        final(text)@ == old(text)@.push(c),
{
    text.push(c)
}

/// Appends the base-10 digits of `n` to `out`.
fn push_decimal_digits(n: u32, out: &mut String)
    ensures
        final(out)@ == old(out)@ + decimal_digits(n as nat),
    decreases n,
{
    if n >= 10 {
        push_decimal_digits(n / 10, out);
    }
    let d: u8 = (n % 10) as u8;
    push_char(out, (0x30 + d) as char);
    assert(out@ =~= old(out)@ + decimal_digits(n as nat));
}

/// Appends `n`, written in base 10, to `out`.
pub fn push_decimal(n: i32, out: &mut String)
    ensures
        final(out)@ == old(out)@ + decimal(n as int),
{
    if n < 0 {
        push_char(out, '-');
        let m: u32 = (-(n as i64)) as u32;
        push_decimal_digits(m, out);
        assert(out@ =~= old(out)@ + decimal(n as int));
    } else {
        push_decimal_digits(n as u32, out);
    }
}

/// `n` written in base 10.
pub fn to_decimal(n: i32) -> (text: String)
    ensures
        text@ == decimal(n as int),
{
    let mut text = String::new();
    push_decimal(n, &mut text);
    assert(text@ =~= decimal(n as int));
    text
}

} // verus!
