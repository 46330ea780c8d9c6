//! Text helpers: strings as sequences of characters.

use vstd::prelude::*;
use vstd::utf8::valid_utf8;
use vstd::string::StringSliceAdditionalSpecFns;

verus! {

/// `core::str::from_utf8`: the bytes as a string slice, if and only if they are
/// valid UTF-8. The slice then holds exactly these bytes. Not proved: `std`
/// documents it so.
#[verifier::external_body]
pub(crate) fn str_from_utf8<'a>(bytes: &'a [u8]) -> (r: Option<&'a str>)
    ensures
        r is Some <==> valid_utf8(bytes@),
        r matches Some(s) ==> s.spec_bytes() == bytes@,
{
    core::str::from_utf8(bytes).ok()
}

/// Whether two string slices hold the same characters.
pub fn str_eq(a: &str, b: &str) -> (r: bool)
    ensures
        r == (a@ == b@),
{
    let left: String = a.to_owned();
    let right: String = b.to_owned();
    left == right
}

/// `String::push`: appends one character. Not proved: `std` documents it so.
#[verifier::external_body]
pub(crate) fn push_char(s: &mut String, c: char)
    ensures
        final(s)@ == old(s)@.push(c),
{
    s.push(c)
}

/// Whether a character is white space in the sense of `char::is_whitespace`,
/// that is, has the Unicode property `White_Space`.
pub uninterp spec fn whitespace(c: char) -> bool;

/// `char::is_whitespace`. Not proved: the result is the one `std` gives.
#[verifier::external_body]
pub(crate) fn is_whitespace(c: char) -> (r: bool)
    ensures
        r == whitespace(c),
{
    c.is_whitespace()
}

/// The lower case of a text in the sense of `str::to_lowercase`, which follows
/// the Unicode case mappings.
pub uninterp spec fn lowercased(s: Seq<char>) -> Seq<char>;

/// `str::to_lowercase`. Not proved: the result is the one `std` gives.
#[verifier::external_body]
pub(crate) fn to_lowercase(s: &str) -> (r: String)
    ensures
        r@ == lowercased(s@),
{
    s.to_lowercase()
}

/// The characters of a string.
pub fn chars_of(s: &str) -> (v: Vec<char>)
    ensures
        v@ == s@,
{
    let mut v: Vec<char> = Vec::new();
    for c in it: s.chars()
        invariant
            v@ == it.seq().take(it.index() as int),
            it.seq() == s@,
    {
        v.push(c);
    }
    v
}

/// The string made of the characters of `chars` from `from` up to `to`.
pub fn string_of(chars: &[char], from: usize, to: usize) -> (s: String)
    requires
        from <= to <= chars@.len(),
    ensures
        s@ == chars@.subrange(from as int, to as int),
{
    let mut s: String = String::new();
    let mut i: usize = from;
    while i < to
        invariant
            from <= i <= to <= chars@.len(),
            s@ == chars@.subrange(from as int, i as int),
        decreases to - i,
    {
        push_char(&mut s, chars[i]);
        assert(chars@.subrange(from as int, i as int).push(chars@[i as int]) =~= chars@.subrange(
            from as int,
            i as int + 1,
        ));
        i = i + 1;
    }
    s
}

/// The index of the first `;` of a text at or after `from`, if there is one.
pub open spec fn semicolon_index(s: Seq<char>, from: int) -> Option<int>
    decreases s.len() - from,
{
    if from < 0 || from >= s.len() {
        None
    } else if s[from] == ';' {
        Some(from)
    } else {
        semicolon_index(s, from + 1)
    }
}

/// The media type of a content type: what stands before its first `;`. A
/// content type without `;` has no parameters to part from, and gives `None`.
pub open spec fn spec_mime_type(content_type: Seq<char>) -> Option<Seq<char>> {
    match semicolon_index(content_type, 0) {
        Some(i) => Some(content_type.subrange(0, i)),
        None => None,
    }
}

/// Parts the media type of a content type from its parameters.
pub fn mime_type(content_type: &str) -> (r: Option<String>)
    ensures
        match r {
            Some(media) => spec_mime_type(content_type@) == Some(media@),
            None => spec_mime_type(content_type@) is None,
        },
{
    let chars: Vec<char> = chars_of(content_type);
    let mut i: usize = 0;
    while i < chars.len()
        invariant
            i <= chars@.len(),
            chars@ == content_type@,
            semicolon_index(chars@, i as int) == semicolon_index(chars@, 0),
        decreases chars@.len() - i,
    {
        if chars[i] == ';' {
            return Some(string_of(chars.as_slice(), 0, i));
        }
        i = i + 1;
    }
    None
}

/// A letter of `A` to `Z` turned into its lower case; any other character as
/// it is.
pub open spec fn ascii_lower(c: char) -> char {
    if 'A' <= c && c <= 'Z' {
        ((c as u32) + 32) as char
    } else {
        c
    }
}

/// A text with its letters of `A` to `Z` turned into lower case.
pub open spec fn ascii_lowercased(s: Seq<char>) -> Seq<char> {
    Seq::new(s.len(), |i: int| ascii_lower(s[i]))
}

/// Turns the letters of `A` to `Z` of a text into lower case.
pub fn to_ascii_lowercase(s: &str) -> (r: String)
    ensures
        r@ == ascii_lowercased(s@),
{
    let chars: Vec<char> = chars_of(s);
    let mut r: String = String::new();
    let mut i: usize = 0;
    while i < chars.len()
        invariant
            i <= chars@.len(),
            chars@ == s@,
            r@ == ascii_lowercased(s@).take(i as int),
        decreases chars@.len() - i,
    {
        let c: char = chars[i];
        let lower: char = if 'A' <= c && c <= 'Z' {
            let code: u8 = c as u8;
            (code + 32) as char
        } else {
            c
        };
        push_char(&mut r, lower);
        assert(ascii_lowercased(s@).take(i as int).push(lower) =~= ascii_lowercased(s@).take(
            i as int + 1,
        ));
        i = i + 1;
    }
    assert(ascii_lowercased(s@).take(chars@.len() as int) =~= ascii_lowercased(s@));
    r
}

/// Whether a character is a decimal digit.
pub open spec fn is_digit(c: char) -> bool {
    '0' <= c && c <= '9'
}

/// The number that the digits of `s` spell in base ten. Only meant for texts
/// of digits.
pub open spec fn digits_value(s: Seq<char>) -> nat
    decreases s.len(),
{
    if s.len() == 0 {
        0
    } else {
        (digits_value(s.drop_last()) * 10 + (s.last() as u32 - '0' as u32)) as nat
    }
}

/// Whether a text is made of decimal digits, and of one at least.
pub open spec fn all_digits(s: Seq<char>) -> bool {
    s.len() > 0 && forall|i: int| 0 <= i < s.len() ==> is_digit(#[trigger] s[i])
}

/// The unsigned number that a text spells, if it is at most `max`: one or more
/// decimal digits, before which one `+` may stand. No other character is
/// taken, white space neither.
pub open spec fn spec_parse_unsigned(s: Seq<char>, max: nat) -> Option<nat> {
    let digits = if s.len() > 0 && s[0] == '+' {
        s.drop_first()
    } else {
        s
    };
    if all_digits(digits) && digits_value(digits) <= max {
        Some(digits_value(digits))
    } else {
        None
    }
}

/// A number grows with every digit that is added to it.
proof fn lemma_digits_value_grows(s: Seq<char>, n: int)
    requires
        0 <= n <= s.len(),
        forall|i: int| 0 <= i < s.len() ==> is_digit(#[trigger] s[i]),
    ensures
        digits_value(s.take(n)) <= digits_value(s),
    decreases s.len() - n,
{
    if n < s.len() {
        lemma_digits_value_grows(s, n + 1);
        assert(s.take(n + 1).drop_last() =~= s.take(n));
    } else {
        assert(s.take(n) =~= s);
    }
}

/// Reads an unsigned number of at most `max`.
pub fn parse_unsigned(s: &str, max: u64) -> (r: Option<u64>)
    ensures
        r is Some <==> spec_parse_unsigned(s@, max as nat) is Some,
        r matches Some(v) ==> spec_parse_unsigned(s@, max as nat) == Some(v as nat),
{
    let chars: Vec<char> = chars_of(s);
    let start: usize = if chars.len() > 0 && chars[0] == '+' {
        1
    } else {
        0
    };
    let ghost digits: Seq<char> = chars@.subrange(start as int, chars@.len() as int);
    assert(digits =~= if s@.len() > 0 && s@[0] == '+' {
        s@.drop_first()
    } else {
        s@
    });
    let ghost goal: Option<nat> = if all_digits(digits) && digits_value(digits) <= max {
        Some(digits_value(digits))
    } else {
        None
    };
    assert(goal == spec_parse_unsigned(s@, max as nat));
    if start >= chars.len() {
        return None;
    }
    let mut value: u64 = 0;
    let mut i: usize = start;
    assert(digits.take(0) =~= Seq::<char>::empty());
    while i < chars.len()
        invariant
            start <= i <= chars@.len(),
            digits == chars@.subrange(start as int, chars@.len() as int),
            goal == spec_parse_unsigned(s@, max as nat),
            goal == if all_digits(digits) && digits_value(digits) <= max {
                Some(digits_value(digits))
            } else {
                None::<nat>
            },
            forall|j: int| 0 <= j < i - start ==> is_digit(#[trigger] digits[j]),
            value == digits_value(digits.take(i - start)),
            value <= max,
        decreases chars@.len() - i,
    {
        let c: char = chars[i];
        assert(c == digits[i - start]);
        if !('0' <= c && c <= '9') {
            assert(!is_digit(digits[i - start]));
            return None;
        }
        let digit: u64 = (c as u8 - '0' as u8) as u64;
        proof {
            assert(digits.take(i - start + 1).drop_last() =~= digits.take(i - start));
            assert(digits.take(i - start + 1).last() == c);
        }
        if digit > max || value > (max - digit) / 10 {
            proof {
                assert(value * 10 + digit > max);
                if all_digits(digits) {
                    lemma_digits_value_grows(digits, i - start + 1);
                }
            }
            return None;
        }
        value = value * 10 + digit;
        i = i + 1;
    }
    assert(digits.take(digits.len() as int) =~= digits);
    Some(value)
}

/// The digits of a natural number in base ten, without leading zeros; the one
/// digit `0` for zero.
pub open spec fn decimal(n: nat) -> Seq<char>
    decreases n,
{
    if n < 10 {
        seq![(('0' as u32) + n as u32) as char]
    } else {
        decimal(n / 10).push((('0' as u32) + (n % 10) as u32) as char)
    }
}

/// An integer in base ten, with `-` before the digits of a negative one.
pub open spec fn signed_decimal(v: int) -> Seq<char> {
    if v < 0 {
        seq!['-'] + decimal((-v) as nat)
    } else {
        decimal(v as nat)
    }
}

/// Appends the digits of `n` to `out`.
pub fn push_decimal(out: &mut String, n: u64)
    ensures
        final(out)@ == old(out)@ + decimal(n as nat),
    decreases n,
{
    if n < 10 {
        let digit: u8 = '0' as u8 + n as u8;
        push_char(out, digit as char);
        assert(old(out)@.push(digit as char) =~= old(out)@ + decimal(n as nat));
    } else {
        push_decimal(out, n / 10);
        let digit: u8 = '0' as u8 + (n % 10) as u8;
        push_char(out, digit as char);
        assert((old(out)@ + decimal((n / 10) as nat)).push(digit as char) =~= old(out)@
            + decimal(n as nat));
    }
}

/// Appends an integer in base ten to `out`.
pub fn push_signed_decimal(out: &mut String, v: i64)
    ensures
        final(out)@ == old(out)@ + signed_decimal(v as int),
{
    if v < 0 {
        push_char(out, '-');
        let magnitude: u64 = if v == i64::MIN {
            0x8000_0000_0000_0000
        } else {
            (-v) as u64
        };
        push_decimal(out, magnitude);
        assert(old(out)@.push('-') + decimal(magnitude as nat) =~= old(out)@ + signed_decimal(
            v as int,
        ));
    } else {
        push_decimal(out, v as u64);
    }
}

} // verus!
