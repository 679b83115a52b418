//! Lowercase hexadecimal encoding of byte sequences.
use vstd::prelude::*;
use vstd::string::*;
use vstd::utf8::{encode_utf8, is_ascii_chars, is_ascii_chars_encode_utf8};

verus! {

/// The lowercase hexadecimal digit that stands for `n`, for `n` below sixteen:
/// `0`..`9` for zero to nine (`0` has the code `0x30`), `a`..`f` for ten to
/// fifteen (`a` has the code `0x61`, which is `0x57` and ten).
pub open spec fn hex_digit(n: int) -> char
    recommends
        0 <= n < 16,
{
    if n < 10 {
        (n + 0x30) as u8 as char
    } else {
        (n + 0x57) as u8 as char
    }
}

/// Whether `c` is one of `0`..`9` or `a`..`f`.
pub open spec fn is_lower_hex(c: char) -> bool {
    ('0' <= c <= '9') || ('a' <= c <= 'f')
}

/// The text of `bytes` in lowercase hexadecimal: two digits for each byte,
/// the high half first, with nothing before, between or after them.
pub open spec fn hex_encode(bytes: Seq<u8>) -> Seq<char> {
    Seq::new(
        2 * bytes.len(),
        |i: int|
            if i % 2 == 0 {
                hex_digit(bytes[i / 2] as int / 16)
            } else {
                hex_digit(bytes[i / 2] as int % 16)
            },
    )
}

/// Every digit is a character of `0`..`9` or `a`..`f`.
pub proof fn lemma_hex_digit_lowercase(n: int)
    requires
        0 <= n < 16,
    ensures
        is_lower_hex(hex_digit(n)),
{
}

/// The encoding holds nothing but the characters `0`..`9` and `a`..`f`, two
/// for each byte.
pub proof fn lemma_hex_encode_lowercase(bytes: Seq<u8>)
    ensures
        hex_encode(bytes).len() == 2 * bytes.len(),
        forall|i: int| 0 <= i < hex_encode(bytes).len() ==> is_lower_hex(#[trigger] hex_encode(bytes)[i]),
        is_ascii_chars(hex_encode(bytes)),
{
    assert forall|i: int| 0 <= i < hex_encode(bytes).len() implies is_lower_hex(
        #[trigger] hex_encode(bytes)[i],
    ) by {
        let byte = bytes[i / 2] as int;
        lemma_hex_digit_lowercase(byte / 16);
        lemma_hex_digit_lowercase(byte % 16);
    }
}

/// Encoding two sequences one after the other is encoding them joined.
pub proof fn lemma_hex_encode_concat(front: Seq<u8>, back: Seq<u8>)
    ensures
        hex_encode(front + back) == hex_encode(front) + hex_encode(back),
{
    assert(hex_encode(front + back) =~= hex_encode(front) + hex_encode(back));
}

/// In UTF-8 each character of the encoding is one byte, its ASCII code.
pub proof fn lemma_hex_encode_utf8(bytes: Seq<u8>)
    ensures
        encode_utf8(hex_encode(bytes)).len() == 2 * bytes.len(),
        forall|i: int|
            0 <= i < 2 * bytes.len() ==> #[trigger] encode_utf8(hex_encode(bytes))[i] == hex_encode(
                bytes,
            )[i] as u8,
{
    lemma_hex_encode_lowercase(bytes);
    is_ascii_chars_encode_utf8(hex_encode(bytes));
}

/// The one-character text of the digit of a value below sixteen.
fn digit_str(n: u8) -> (digit: &'static str)
    requires
        n < 16,
    ensures
        digit@ == seq![hex_digit(n as int)],
{
    let digits = "0123456789abcdef";
    proof {
        reveal_strlit("0123456789abcdef");
    }
    let digit = digits.substring_ascii(n as usize, n as usize + 1);
    assert(digit@ =~= seq![hex_digit(n as int)]);
    digit
}

/// Renders `buf` in lowercase hexadecimal.
pub fn bytes_to_hex(buf: &[u8]) -> (text: String)
    ensures
        text@ == hex_encode(buf@),
{
    let mut text = String::new();
    let mut i: usize = 0;
    while i < buf.len()
        invariant
            i <= buf@.len(),
            text@ == hex_encode(buf@.take(i as int)),
        decreases buf@.len() - i,
    {
        let byte = buf[i];
        text.append(digit_str(byte / 16));
        text.append(digit_str(byte % 16));
        assert(text@ =~= hex_encode(buf@.take(i + 1)));
        i += 1;
    }
    assert(buf@.take(i as int) =~= buf@);
    text
}

} // verus!
