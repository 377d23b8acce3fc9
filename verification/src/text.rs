//! Decimal numerals and padding, the text building blocks of pages and table cells.

use vstd::prelude::*;
use vstd::utf8::encode_utf8;

verus! {

/// The character for one decimal digit.
pub open spec fn digit_char(d: int) -> char
    recommends
        0 <= d < 10,
{
    (48 + d) as u8 as char
}

/// The decimal numeral of a natural number, without leading zeros.
pub open spec fn decimal_digits(n: nat) -> Seq<char>
    decreases n,
{
    if n < 10 {
        seq![digit_char(n as int)]
    } else {
        decimal_digits(n / 10).push(digit_char((n % 10) as int))
    }
}

/// The decimal numeral of an integer: a minus sign for negative numbers, then the digits.
pub open spec fn decimal(v: int) -> Seq<char> {
    if v < 0 {
        seq!['-'] + decimal_digits((-v) as nat)
    } else {
        decimal_digits(v as nat)
    }
}

/// The decimal numeral of an integer, filled with a zero to a width of two.
pub open spec fn decimal_width2(v: int) -> Seq<char> {
    if 0 <= v < 10 {
        seq!['0'] + decimal(v)
    } else {
        decimal(v)
    }
}

/// `count` copies of `c`.
pub open spec fn repeated(c: char, count: nat) -> Seq<char> {
    Seq::new(count, |i: int| c)
}

/// The length in bytes of the UTF-8 encoding of `text`, as a machine word holds it.
pub open spec fn byte_length(text: Seq<char>) -> nat {
    encode_utf8(text).len() as usize as nat
}

/// `text` followed by as many copies of `pad_char` as its byte length falls short of
/// `desired_length`.
pub open spec fn padded(text: Seq<char>, pad_char: char, desired_length: nat) -> Seq<char> {
    let byte_len = byte_length(text);
    if byte_len < desired_length {
        text + repeated(pad_char, (desired_length - byte_len) as nat)
    } else {
        text
    }
}

/// Appends one character with `String::push`.
///
/// Trusted: the new text is the old text with `c` at its end, as the method's
/// documentation says.
#[verifier::external_body]
pub(crate) fn push_char(s: &mut String, c: char)
    ensures
        final(s)@ == old(s)@.push(c),
{
    s.push(c);
}

/// Appends the decimal numeral of `n` to `s`.
pub fn append_decimal_digits(s: &mut String, n: u128)
    ensures
        final(s)@ == old(s)@ + decimal_digits(n as nat),
    decreases n,
{
    if n >= 10 {
        append_decimal_digits(s, n / 10);
    }
    let d: u8 = (n % 10) as u8;
    let c: char = (48u8 + d) as char;
    push_char(s, c);
}

/// Appends the decimal numeral of `v` to `s`.
pub fn append_decimal(s: &mut String, v: i128)
    ensures
        final(s)@ == old(s)@ + decimal(v as int),
{
    if v < 0 {
        push_char(s, '-');
        let magnitude: u128 = (-(v + 1)) as u128 + 1;
        append_decimal_digits(s, magnitude);
    } else {
        append_decimal_digits(s, v as u128);
    }
}

/// Appends the decimal numeral of `v`, filled with a zero to a width of two.
pub fn append_decimal_width2(s: &mut String, v: i128)
    ensures
        final(s)@ == old(s)@ + decimal_width2(v as int),
{
    if 0 <= v && v < 10 {
        push_char(s, '0');
        append_decimal(s, v);
    } else {
        append_decimal(s, v);
    }
}

/// The decimal numeral of `v` as a string.
pub fn decimal_string(v: i128) -> (s: String)
    ensures
        s@ == decimal(v as int),
{
    let mut s = String::new();
    append_decimal(&mut s, v);
    s
}

/// Fills `string` at its end with `pad_char` until its byte length reaches
/// `desired_length`; a string that is long enough already comes back unchanged.
pub fn try_pad_string(string: String, pad_char: char, desired_length: usize) -> (out: String)
    ensures
        out@ == padded(string@, pad_char, desired_length as nat),
{
    let ghost start = string@;
    let mut string = string;
    let len: usize = string.as_str().len();
    if len < desired_length {
        let pad_len: usize = desired_length - len;
        let mut i: usize = 0;
        while i < pad_len
            invariant
                i <= pad_len,
                string@ == start + repeated(pad_char, i as nat),
            decreases pad_len - i,
        {
            push_char(&mut string, pad_char);
            i = i + 1;
        }
        string
    } else {
        string
    }
}

} // verus!
