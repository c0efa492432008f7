//! Byte and text encodings that the hashing code is stated over.

use vstd::prelude::*;
use vstd::bytes::{
    lemma_auto_spec_u64_to_from_le_bytes,
    spec_u64_from_le_bytes,
    spec_u64_to_le_bytes,
    u64_to_le_bytes,
};
use vstd::utf8::encode_utf8;
use crate::text::lemma_text_bytes_injective;

verus! {

/// The lower-case hexadecimal digit for a value below sixteen.
pub open spec fn hex_digit(n: int) -> char {
    if n == 0 {
        '0'
    } else if n == 1 {
        '1'
    } else if n == 2 {
        '2'
    } else if n == 3 {
        '3'
    } else if n == 4 {
        '4'
    } else if n == 5 {
        '5'
    } else if n == 6 {
        '6'
    } else if n == 7 {
        '7'
    } else if n == 8 {
        '8'
    } else if n == 9 {
        '9'
    } else if n == 10 {
        'a'
    } else if n == 11 {
        'b'
    } else if n == 12 {
        'c'
    } else if n == 13 {
        'd'
    } else if n == 14 {
        'e'
    } else {
        'f'
    }
}

/// Lower-case hexadecimal text of a byte string: two digits per byte, the
/// high half first.
pub open spec fn hex_lower(bytes: Seq<u8>) -> Seq<char> {
    Seq::new(
        2 * bytes.len(),
        |i: int|
            if i % 2 == 0 {
                hex_digit(bytes[i / 2] as int / 16)
            } else {
                hex_digit(bytes[i / 2] as int % 16)
            },
    )
}

/// Whether a character is one of `0-9`, `a-f`.
pub open spec fn is_lower_hex_char(c: char) -> bool {
    ('0' <= c && c <= '9') || ('a' <= c && c <= 'f')
}

/// Number of characters in the hexadecimal text of a 32-byte digest.
pub const HEX_DIGEST_LEN: usize = 64;

/// Whether a text is the hexadecimal text of a 32-byte digest: exactly 64
/// lower-case hexadecimal characters.
pub open spec fn is_hex_digest(text: Seq<char>) -> bool {
    &&& text.len() == HEX_DIGEST_LEN
    &&& forall|i: int| 0 <= i < text.len() ==> is_lower_hex_char(#[trigger] text[i])
}

/// The value of a lower-case hexadecimal digit.
pub open spec fn hex_value(c: char) -> int {
    if '0' <= c && c <= '9' {
        c as int - '0' as int
    } else {
        c as int - 'a' as int + 10
    }
}

/// The bytes of a text in UTF-8.
pub open spec fn text_bytes(s: Seq<char>) -> Seq<u8> {
    encode_utf8(s)
}

/// The bytes of an optional text; none where the text is absent.
pub open spec fn present_bytes(text: Option<Seq<char>>) -> Seq<u8> {
    match text {
        Some(s) => text_bytes(s),
        None => Seq::empty(),
    }
}

/// Number of bytes in the header of a frame.
pub const FRAME_HEADER_LEN: usize = 8;

/// Whether a byte string is short enough for its length to be written in
/// the header of a frame. Every byte string in memory is.
pub open spec fn fits_frame(bytes: Seq<u8>) -> bool {
    bytes.len() <= u64::MAX
}

/// A byte string in a frame: its length in eight little-endian bytes, then
/// the bytes themselves. Frames that follow one another can be told apart,
/// which bytes that merely follow one another cannot.
pub open spec fn frame(bytes: Seq<u8>) -> Seq<u8> {
    spec_u64_to_le_bytes(bytes.len() as u64) + bytes
}

/// The UTF-8 bytes of a text, in a frame.
pub open spec fn framed_text(s: Seq<char>) -> Seq<u8> {
    frame(text_bytes(s))
}

/// The texts of a list, each in a frame, in the order of the list.
pub open spec fn framed_texts(items: Seq<Seq<char>>) -> Seq<u8>
    decreases items.len(),
{
    if items.len() == 0 {
        Seq::empty()
    } else {
        framed_text(items[0]) + framed_texts(items.drop_first())
    }
}

/// Whether every text of a list fits a frame.
pub open spec fn texts_fit(items: Seq<Seq<char>>) -> bool {
    forall|i: int| 0 <= i < items.len() ==> fits_frame(text_bytes(#[trigger] items[i]))
}

/// A tag and a text in a frame, where there is a text; nothing where there
/// is none.
pub open spec fn tagged_text(tag: u8, text: Option<Seq<char>>) -> Seq<u8> {
    match text {
        Some(s) => seq![tag] + framed_text(s),
        None => Seq::empty(),
    }
}

/// Appends bytes to a buffer.
pub fn append_bytes(buffer: &mut Vec<u8>, more: &[u8])
    ensures
        final(buffer)@ == old(buffer)@ + more@,
{
    buffer.extend_from_slice(more);
}

/// Appends the UTF-8 bytes of a text to a buffer.
pub fn append_text(buffer: &mut Vec<u8>, text: &str)
    ensures
        final(buffer)@ == old(buffer)@ + text_bytes(text@),
{
    append_bytes(buffer, text.as_bytes());
}

/// Appends the UTF-8 bytes of a text to a buffer, where there is a text.
pub fn append_present(buffer: &mut Vec<u8>, text: &Option<String>)
    ensures
        final(buffer)@ == old(buffer)@ + present_bytes(crate::text::option_text(*text)),
{
    match text {
        Some(s) => {
            append_text(buffer, s.as_str());
        },
        None => {
        },
    }
}

/// Appends the UTF-8 bytes of a text to a buffer, in a frame.
pub fn append_framed_text(buffer: &mut Vec<u8>, text: &str)
    ensures
        final(buffer)@ == old(buffer)@ + framed_text(text@),
{
    let bytes = text.as_bytes();
    let header = u64_to_le_bytes(bytes.len() as u64);
    append_bytes(buffer, header.as_slice());
    append_bytes(buffer, bytes);
    assert(buffer@ =~= old(buffer)@ + framed_text(text@));
}

/// Appends a tag and the framed bytes of a text to a buffer, where there is
/// a text.
pub fn append_tagged_text(buffer: &mut Vec<u8>, tag: u8, text: &Option<String>)
    ensures
        final(buffer)@ == old(buffer)@ + tagged_text(tag, crate::text::option_text(*text)),
{
    match text {
        Some(s) => {
            buffer.push(tag);
            append_framed_text(buffer, s.as_str());
            assert(buffer@ =~= old(buffer)@ + (seq![tag] + framed_text(s@)));
        },
        None => {
            assert(buffer@ =~= old(buffer)@ + Seq::<u8>::empty());
        },
    }
}

/// A frame at the head of a byte string determines its content and what
/// follows it: where two byte strings that begin with a frame are equal, so
/// are the framed bytes and so are the rests.
pub proof fn lemma_frame_split(a: Seq<u8>, rest_a: Seq<u8>, b: Seq<u8>, rest_b: Seq<u8>)
    requires
        fits_frame(a),
        fits_frame(b),
        frame(a) + rest_a == frame(b) + rest_b,
    ensures
        a == b,
        rest_a == rest_b,
{
    lemma_auto_spec_u64_to_from_le_bytes();
    let header_a = spec_u64_to_le_bytes(a.len() as u64);
    let header_b = spec_u64_to_le_bytes(b.len() as u64);
    let whole_a = frame(a) + rest_a;
    let whole_b = frame(b) + rest_b;
    assert(whole_a.subrange(0, 8) =~= header_a);
    assert(whole_b.subrange(0, 8) =~= header_b);
    assert(spec_u64_from_le_bytes(header_a) == spec_u64_from_le_bytes(header_b));
    assert(a.len() == b.len());
    let end = 8 + a.len() as int;
    assert(whole_a.subrange(8, end) =~= a);
    assert(whole_b.subrange(8, end) =~= b);
    assert(whole_a.subrange(end, whole_a.len() as int) =~= rest_a);
    assert(whole_b.subrange(end, whole_b.len() as int) =~= rest_b);
}

/// The frames of a list with one more text at its end.
pub proof fn lemma_framed_texts_push(items: Seq<Seq<char>>, item: Seq<char>)
    ensures
        framed_texts(items.push(item)) == framed_texts(items) + framed_text(item),
    decreases items.len(),
{
    let longer = items.push(item);
    if items.len() == 0 {
        assert(longer.drop_first() =~= Seq::<Seq<char>>::empty());
        assert(framed_texts(longer) =~= framed_text(item) + framed_texts(longer.drop_first()));
        assert(framed_texts(longer) =~= framed_texts(items) + framed_text(item));
    } else {
        assert(longer.drop_first() =~= items.drop_first().push(item));
        lemma_framed_texts_push(items.drop_first(), item);
        assert(framed_texts(longer) =~= framed_texts(items) + framed_text(item));
    }
}

/// Framed lists determine their texts: lists of texts with the same frames
/// are the same list, item by item and in the same order.
pub proof fn lemma_framed_texts_injective(a: Seq<Seq<char>>, b: Seq<Seq<char>>)
    requires
        texts_fit(a),
        texts_fit(b),
        framed_texts(a) == framed_texts(b),
    ensures
        a == b,
    decreases a.len(),
{
    lemma_auto_spec_u64_to_from_le_bytes();
    if a.len() == 0 {
        if b.len() > 0 {
            assert(framed_texts(b).len() >= 8);
        }
        assert(a =~= b);
    } else if b.len() == 0 {
        assert(framed_texts(a).len() >= 8);
    } else {
        assert(fits_frame(text_bytes(a[0])));
        assert(fits_frame(text_bytes(b[0])));
        lemma_frame_split(
            text_bytes(a[0]),
            framed_texts(a.drop_first()),
            text_bytes(b[0]),
            framed_texts(b.drop_first()),
        );
        lemma_text_bytes_injective(a[0], b[0]);
        assert(texts_fit(a.drop_first())) by {
            assert forall|i: int| 0 <= i < a.drop_first().len() implies fits_frame(
                text_bytes(#[trigger] a.drop_first()[i]),
            ) by {
                assert(a.drop_first()[i] == a[i + 1]);
            }
        }
        assert(texts_fit(b.drop_first())) by {
            assert forall|i: int| 0 <= i < b.drop_first().len() implies fits_frame(
                text_bytes(#[trigger] b.drop_first()[i]),
            ) by {
                assert(b.drop_first()[i] == b[i + 1]);
            }
        }
        lemma_framed_texts_injective(a.drop_first(), b.drop_first());
        assert(a =~= seq![a[0]] + a.drop_first());
        assert(b =~= seq![b[0]] + b.drop_first());
    }
}

/// `hex_digit` yields lower-case hexadecimal characters and `hex_value`
/// reads them back.
pub proof fn lemma_hex_digit(n: int)
    requires
        0 <= n < 16,
    ensures
        is_lower_hex_char(hex_digit(n)),
        hex_value(hex_digit(n)) == n,
{
}

/// Hexadecimal text has twice the length of its bytes and holds only
/// lower-case hexadecimal characters; that of 32 bytes is the text of a
/// digest.
pub proof fn lemma_hex_lower_shape(bytes: Seq<u8>)
    ensures
        hex_lower(bytes).len() == 2 * bytes.len(),
        forall|i: int|
            0 <= i < hex_lower(bytes).len() ==> is_lower_hex_char(#[trigger] hex_lower(bytes)[i]),
        bytes.len() == 32 ==> is_hex_digest(hex_lower(bytes)),
{
}

/// Hexadecimal text determines its bytes.
pub proof fn lemma_hex_lower_injective(a: Seq<u8>, b: Seq<u8>)
    requires
        hex_lower(a) == hex_lower(b),
    ensures
        a == b,
{
    assert(hex_lower(a).len() == 2 * a.len());
    assert forall|k: int| 0 <= k < a.len() implies a[k] == b[k] by {
        let x = a[k] as int;
        let y = b[k] as int;
        assert(hex_lower(a)[2 * k] == hex_digit(x / 16));
        assert(hex_lower(a)[2 * k + 1] == hex_digit(x % 16));
        lemma_hex_digit(x / 16);
        lemma_hex_digit(y / 16);
        lemma_hex_digit(x % 16);
        lemma_hex_digit(y % 16);
    }
}

} // verus!
