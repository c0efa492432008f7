//! Text helpers: searching, counting, and the decimal reading and writing of
//! integers.

use vstd::prelude::*;
use crate::encoding::hex_digit;

verus! {

/// The text of an optional string.
pub open spec fn option_text(o: Option<String>) -> Option<Seq<char>> {
    match o {
        Some(s) => Some(s@),
        None => None,
    }
}

/// The texts of a list of strings, in order.
pub open spec fn texts(items: Seq<String>) -> Seq<Seq<char>> {
    items.map_values(|s: String| s@)
}

/// Whether a character is of ASCII.
pub open spec fn is_ascii_char(c: char) -> bool {
    c <= '\u{7f}'
}

/// Whether a character is one of `0-9`.
pub open spec fn is_decimal_char(c: char) -> bool {
    '0' <= c && c <= '9'
}

/// Whether, among the characters of ASCII in a text, the numeric ones are
/// the digits `0` to `9` and no others.
pub open spec fn ascii_numeric_are_digits(s: Seq<char>) -> bool {
    forall|i: int|
        0 <= i < s.len() && is_ascii_char(#[trigger] s[i]) ==> (is_numeric_char(s[i])
            <==> is_decimal_char(s[i]))
}

/// How many characters of a text are numeric.
pub open spec fn numeric_count(s: Seq<char>) -> nat
    decreases s.len(),
{
    if s.len() == 0 {
        0
    } else {
        numeric_count(s.drop_last()) + if is_numeric_char(s.last()) {
            1nat
        } else {
            0nat
        }
    }
}

/// The decimal digit for a value below ten.
pub open spec fn decimal_digit(d: nat) -> char {
    hex_digit(d as int)
}

/// The decimal digits of a natural number, without leading zeros.
pub open spec fn decimal_digits(n: nat) -> Seq<char>
    decreases n,
{
    if n < 10 {
        seq![decimal_digit(n)]
    } else {
        decimal_digits(n / 10).push(decimal_digit(n % 10))
    }
}

/// Whether every character of a text is one of `0-9`.
pub open spec fn all_decimal(s: Seq<char>) -> bool {
    forall|i: int| 0 <= i < s.len() ==> '0' <= #[trigger] s[i] && s[i] <= '9'
}

/// The number that a text of decimal digits writes.
pub open spec fn decimal_value(s: Seq<char>) -> int
    decreases s.len(),
{
    if s.len() == 0 {
        0
    } else {
        decimal_value(s.drop_last()) * 10 + (s.last() as int - '0' as int)
    }
}

/// The signed 64-bit integer that a text writes in decimal: an optional `+`
/// or `-`, then one or more digits and nothing else; `None` for any other
/// text and for a number outside the range of `i64`.
pub open spec fn parsed_i64(s: Seq<char>) -> Option<i64> {
    let negative = s.len() > 0 && s[0] == '-';
    let signed = s.len() > 0 && (s[0] == '-' || s[0] == '+');
    let digits = if signed {
        s.skip(1)
    } else {
        s
    };
    let value = if negative {
        -decimal_value(digits)
    } else {
        decimal_value(digits)
    };
    if digits.len() > 0 && all_decimal(digits) && i64::MIN <= value <= i64::MAX {
        Some(value as i64)
    } else {
        None
    }
}

// Calls into the standard library. Each is trusted to do what its contract
// says; everything else in this file is verified.

/// Whether Unicode classes a character as a number (general categories Nd,
/// Nl and No), as `char::is_numeric` reports it.
pub uninterp spec fn is_numeric_char(c: char) -> bool;

/// Calls `char::is_numeric`. Trusted: the result is the named property of
/// the character, and for a character of ASCII it is true exactly for the
/// digits `0` to `9`.
#[verifier::external_body]
pub(crate) fn char_is_numeric(c: char) -> (numeric: bool)
    ensures
        numeric == is_numeric_char(c),
        is_ascii_char(c) ==> (numeric <==> is_decimal_char(c)),
{
    c.is_numeric()
}

/// Calls `u64::to_string`. Trusted: the result is the number in decimal
/// digits, without sign or leading zeros.
#[verifier::external_body]
pub(crate) fn decimal_text(n: u64) -> (text: String)
    ensures
        text@ == decimal_digits(n as nat),
{
    n.to_string()
}

/// Calls `str::parse::<i64>`. Trusted: the result is the number that the
/// text writes in decimal, where it writes one that fits.
#[verifier::external_body]
pub(crate) fn parse_i64(s: &str) -> (value: Option<i64>)
    ensures
        value == parsed_i64(s@),
{
    s.parse::<i64>().ok()
}

/// Calls `String::from_utf8`. Trusted: the result is `Some` exactly where
/// the bytes are well-formed UTF-8, and then holds the text that they encode.
#[verifier::external_body]
pub(crate) fn string_from_utf8(bytes: Vec<u8>) -> (text: Option<String>)
    ensures
        text is Some <==> vstd::utf8::valid_utf8(bytes@),
        text matches Some(s) ==> s@ == vstd::utf8::decode_utf8(bytes@),
{
    String::from_utf8(bytes).ok()
}

// Verified functions.

/// Whether a text holds the character `c`.
pub fn contains_char(s: &str, c: char) -> (found: bool)
    ensures
        found == s@.contains(c),
{
    let mut found = false;
    for x in it: s.chars()
        invariant
            it.seq() == s@,
            found == (exists|k: int| 0 <= k < it.index() && s@[k] == c),
    {
        if x == c {
            found = true;
        }
    }
    found
}

/// The text whose characters are the given bytes, one character per byte.
pub open spec fn ascii_text(bytes: Seq<u8>) -> Seq<char> {
    Seq::new(bytes.len(), |i: int| bytes[i] as char)
}

/// Whether every byte is below 128.
pub open spec fn all_ascii(bytes: Seq<u8>) -> bool {
    forall|i: int| 0 <= i < bytes.len() ==> #[trigger] bytes[i] < 128
}

/// Bytes below 128 are well-formed UTF-8 and encode one character each.
pub proof fn lemma_ascii_is_utf8(bytes: Seq<u8>)
    requires
        all_ascii(bytes),
    ensures
        vstd::utf8::valid_utf8(bytes),
        vstd::utf8::decode_utf8(bytes) == ascii_text(bytes),
        vstd::utf8::encode_utf8(ascii_text(bytes)) == bytes,
{
    let chars = ascii_text(bytes);
    vstd::utf8::is_ascii_chars_encode_utf8(chars);
    assert(vstd::utf8::encode_utf8(chars) =~= bytes);
    vstd::utf8::encode_utf8_valid_utf8(chars);
    vstd::utf8::encode_utf8_decode_utf8(chars);
}

/// The text of bytes that are all below 128.
pub(crate) fn text_from_ascii(bytes: &[u8]) -> (text: String)
    requires
        all_ascii(bytes@),
    ensures
        text@ == ascii_text(bytes@),
{
    proof {
        lemma_ascii_is_utf8(bytes@);
    }
    let owned = vstd::slice::slice_to_vec(bytes);
    match string_from_utf8(owned) {
        Some(text) => text,
        None => String::new(),
    }
}

/// Two texts with the same UTF-8 bytes are the same text.
pub proof fn lemma_text_bytes_injective(a: Seq<char>, b: Seq<char>)
    requires
        vstd::utf8::encode_utf8(a) == vstd::utf8::encode_utf8(b),
    ensures
        a == b,
{
    vstd::utf8::encode_utf8_decode_utf8(a);
    vstd::utf8::encode_utf8_decode_utf8(b);
}

/// Counts the numeric characters of a text. Of its characters of ASCII,
/// those counted are the digits `0` to `9`.
pub fn count_numeric(s: &str) -> (count: usize)
    ensures
        count == numeric_count(s@),
        ascii_numeric_are_digits(s@),
{
    let mut count: usize = 0;
    let total: usize = s.unicode_len();
    for x in it: s.chars()
        invariant
            it.seq() == s@,
            total == s@.len(),
            count == numeric_count(s@.take(it.index() as int)),
            count <= it.index(),
            ascii_numeric_are_digits(s@.take(it.index() as int)),
    {
        proof {
            let i = it.index() as int;
            assert(s@.take(i + 1).drop_last() =~= s@.take(i));
        }
        if char_is_numeric(x) {
            count = count + 1;
        }
    }
    assert(s@.take(s@.len() as int) =~= s@);
    count
}

} // verus!
