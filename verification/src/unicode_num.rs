//! Numbers written with full-width digits.

use vstd::prelude::*;
use crate::grammar::{ascii_digit, digit_value, wide_digit};
use crate::parser::{chars_of, digit};

verus! {

/// The ASCII digit of a full-width digit; any other character is itself.
pub open spec fn ascii_of(c: char) -> char {
    if c == '０' {
        '0'
    } else if c == '１' {
        '1'
    } else if c == '２' {
        '2'
    } else if c == '３' {
        '3'
    } else if c == '４' {
        '4'
    } else if c == '５' {
        '5'
    } else if c == '６' {
        '6'
    } else if c == '７' {
        '7'
    } else if c == '８' {
        '8'
    } else if c == '９' {
        '9'
    } else {
        c
    }
}

/// A text with every full-width digit replaced by its ASCII digit.
pub open spec fn ascii_digits_of(text: Seq<char>) -> Seq<char> {
    Seq::new(text.len(), |i: int| ascii_of(text[i]))
}

/// The number that a row of ASCII digits writes, first digit first.
pub open spec fn written(text: Seq<char>) -> nat
    decreases text.len(),
{
    if text.len() == 0 {
        0
    } else {
        10 * written(text.drop_last()) + digit_value(text.last()) as nat
    }
}

/// Whether every character is an ASCII digit.
pub open spec fn all_ascii_digits(text: Seq<char>) -> bool {
    forall|i: int| 0 <= i < text.len() ==> ascii_digit(#[trigger] text[i])
}

/// The number that a text writes: an optional `+` and one ASCII digit or
/// more, if the number fits.
pub open spec fn number_of(text: Seq<char>) -> Option<usize> {
    let digits = if text.len() > 0 && text[0] == '+' {
        text.skip(1)
    } else {
        text
    };
    if digits.len() > 0 && all_ascii_digits(digits) && written(digits) <= usize::MAX {
        Some(written(digits) as usize)
    } else {
        None
    }
}

/// Replacing a full-width digit by its ASCII digit keeps its value, and so
/// a text of decimal digits keeps the values of its digits.
pub proof fn lemma_ascii_keeps_values(text: Seq<char>)
    requires
        crate::grammar::all_decimal(text),
    ensures
        crate::grammar::all_decimal(ascii_digits_of(text)),
        all_ascii_digits(ascii_digits_of(text)),
        crate::grammar::digit_values(ascii_digits_of(text)) == crate::grammar::digit_values(text),
{
    assert forall|i: int| 0 <= i < text.len() implies ascii_digit(
        #[trigger] ascii_digits_of(text)[i],
    ) && digit_value(ascii_digits_of(text)[i]) == digit_value(text[i]) by {
        assert(ascii_digit(text[i]) || wide_digit(text[i]));
    }
    assert(crate::grammar::digit_values(ascii_digits_of(text)) =~= crate::grammar::digit_values(
        text,
    ));
}

/// The ASCII digit of a full-width digit; any other character is itself.
pub fn to_ascii(c: char) -> (r: char)
    ensures
        r == ascii_of(c),
{
    match c {
        '０' => '0',
        '１' => '1',
        '２' => '2',
        '３' => '3',
        '４' => '4',
        '５' => '5',
        '６' => '6',
        '７' => '7',
        '８' => '8',
        '９' => '9',
        _ => c,
    }
}

/// Replaces every full-width digit of the text by its ASCII digit.
pub fn to_ascii_digit(input: &str) -> (r: String)
    ensures
        r@ == ascii_digits_of(input@),
{
    let chars = chars_of(input);
    let mut out = String::new();
    let mut i: usize = 0;
    while i < chars.len()
        invariant
            i <= chars.len(),
            chars@ == input@,
            out@ == ascii_digits_of(input@).take(i as int),
        decreases chars.len() - i,
    {
        out.push(to_ascii(chars[i]));
        assert(out@ =~= ascii_digits_of(input@).take(i + 1));
        i += 1;
    }
    assert(out@ =~= ascii_digits_of(input@));
    out
}

/// A number grows with every digit that is written behind it.
proof fn lemma_written_grows(text: Seq<char>, n: int)
    requires
        0 <= n <= text.len(),
    ensures
        written(text.take(n)) <= written(text),
    decreases text.len() - n,
{
    if n < text.len() {
        assert(text.take(n + 1).drop_last() =~= text.take(n));
        lemma_written_grows(text, n + 1);
    } else {
        assert(text.take(n) =~= text);
    }
}

/// Reads a whole number that may be written with full-width digits: the
/// full-width digits are replaced by ASCII digits, and what is then an
/// optional `+` and a row of digits that fits is the number.
pub fn parse_unicode(input: &str) -> (r: Option<usize>)
    ensures
        r == number_of(ascii_digits_of(input@)),
{
    let ascii = to_ascii_digit(input);
    let chars = chars_of(ascii.as_str());
    let start: usize = if chars.len() > 0 && chars[0] == '+' {
        1
    } else {
        0
    };
    let ghost text = ascii_digits_of(input@);
    let ghost digits = chars@.skip(start as int);
    assert(chars@ == text);
    assert(text.skip(0) =~= text);
    assert(digits == (if text.len() > 0 && text[0] == '+' {
        text.skip(1)
    } else {
        text
    }));
    if start >= chars.len() {
        return None;
    }
    let mut acc: usize = 0;
    let mut i: usize = start;
    assert(digits.take(0) =~= Seq::<char>::empty());
    while i < chars.len()
        invariant
            start <= i <= chars.len(),
            digits == chars@.skip(start as int),
            digits == (if text.len() > 0 && text[0] == '+' {
                text.skip(1)
            } else {
                text
            }),
            text == ascii_digits_of(input@),
            forall|j: int| 0 <= j < i - start ==> ascii_digit(digits[j]),
            acc == written(digits.take(i - start)),
        decreases chars.len() - i,
    {
        let c = chars[i];
        assert(digits[i - start] == c);
        if !('0' <= c && c <= '9') {
            assert(0 <= i - start < digits.len());
            assert(!ascii_digit(digits[i - start]));
            assert(!all_ascii_digits(digits));
            return None;
        }
        assert(digits.take(i - start + 1).drop_last() =~= digits.take(i - start));
        proof {
            lemma_written_grows(digits, i - start + 1);
        }
        let value = digit(c) as usize;
        if acc > (usize::MAX - value) / 10 {
            assert(written(digits.take(i - start + 1)) == 10 * acc + value);
            assert(10 * acc + value > usize::MAX);
            return None;
        }
        acc = acc * 10 + value;
        i += 1;
    }
    assert(digits.take(i - start) =~= digits);
    Some(acc)
}

} // verus!
