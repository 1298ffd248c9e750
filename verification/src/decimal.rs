//! Integers as decimal text: an optional minus sign, then the digits without padding.

use vstd::prelude::*;
use crate::quoting::{all_unquoted_safe, is_unquoted_safe};

verus! {

/// The character of the decimal digit `d`, for `d` from 0 to 9.
pub open spec fn digit_char(d: int) -> char {
    ('0' as int + d) as char
}

/// The decimal digits of `n`, most significant first: one `0` for zero, no leading zero
/// otherwise.
pub open spec fn decimal_digits(n: nat) -> Seq<char>
    decreases n,
{
    if n < 10 {
        seq![digit_char(n as int)]
    } else {
        decimal_digits(n / 10).push(digit_char((n % 10) as int))
    }
}

/// The decimal text of `n`: its digits, after a minus sign where `n` is negative.
pub open spec fn decimal_text(n: int) -> Seq<char> {
    if n < 0 {
        seq!['-'] + decimal_digits((-n) as nat)
    } else {
        decimal_digits(n as nat)
    }
}

/// `String::push` puts `ch` behind what the string holds.
pub assume_specification[ String::push ](text: &mut String, ch: char)
    ensures
        final(text)@ == old(text)@.push(ch),
;

/// The character of a digit: `0` has the code 48, and the others follow it.
fn digit(d: u8) -> (ch: char)
    requires
        d < 10,
    ensures
        ch == digit_char(d as int),
{
    (48u8 + d) as char
}

/// Puts the decimal digits of `n` behind what `out` holds.
fn push_digits(out: &mut String, n: u128)
    ensures
        final(out)@ == old(out)@ + decimal_digits(n as nat),
    decreases n,
{
    if n >= 10 {
        push_digits(out, n / 10);
    }
    out.push(digit((n % 10) as u8));
}

/// Renders an unsigned integer in decimal.
pub fn unsigned_decimal(n: u128) -> (text: String)
    ensures
        text@ == decimal_text(n as int),
{
    let mut text = String::new();
    push_digits(&mut text, n);
    text
}

/// Renders a signed integer in decimal, the least value of the type included.
pub fn signed_decimal(n: i128) -> (text: String)
    ensures
        text@ == decimal_text(n as int),
{
    let mut text = String::new();
    if n < 0 {
        text.push('-');
        let magnitude: u128 = (-(n + 1)) as u128 + 1;
        push_digits(&mut text, magnitude);
    } else {
        push_digits(&mut text, n as u128);
    }
    text
}

/// Decimal digits are never empty and hold nothing but the characters `0` to `9`.
pub proof fn lemma_decimal_digits_are_digits(n: nat)
    ensures
        decimal_digits(n).len() >= 1,
        forall|i: int|
            0 <= i < decimal_digits(n).len() ==> '0' <= #[trigger] decimal_digits(n)[i] <= '9',
    decreases n,
{
    if n >= 10 {
        lemma_decimal_digits_are_digits(n / 10);
    }
}

/// The number that a sequence of decimal digits denotes.
pub open spec fn digits_value(digits: Seq<char>) -> nat
    decreases digits.len(),
{
    if digits.len() == 0 {
        0
    } else {
        (digits_value(digits.drop_last()) * 10 + (digits.last() as int - '0' as int)) as nat
    }
}

/// The decimal digits of a number denote that number, and they start with `0` for zero
/// alone.
pub proof fn lemma_decimal_digits_denote(n: nat)
    ensures
        digits_value(decimal_digits(n)) == n,
        n > 0 ==> decimal_digits(n).first() != '0',
    decreases n,
{
    if n < 10 {
        let digits = decimal_digits(n);
        assert(digits_value(digits.drop_last()) == 0);
    } else {
        lemma_decimal_digits_denote(n / 10);
        lemma_decimal_digits_are_digits(n / 10);
        assert(decimal_digits(n).drop_last() =~= decimal_digits(n / 10));
    }
}

/// The decimal text of every integer is made of unquoted-safe characters: an integer,
/// which is written bare, is one token without a space, a quote or a line feed.
pub proof fn lemma_decimal_text_is_unquoted_safe(n: int)
    ensures
        decimal_text(n).len() >= 1,
        all_unquoted_safe(decimal_text(n)),
{
    if n < 0 {
        lemma_decimal_digits_are_digits((-n) as nat);
        assert forall|i: int| 0 <= i < decimal_text(n).len() implies is_unquoted_safe(
            #[trigger] decimal_text(n)[i],
        ) by {
            if i > 0 {
                assert(decimal_text(n)[i] == decimal_digits((-n) as nat)[i - 1]);
            }
        }
    } else {
        lemma_decimal_digits_are_digits(n as nat);
    }
}

} // verus!
