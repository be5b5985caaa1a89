//! The text form of stored bytes: two lowercase hexadecimal digits a byte.

use crate::error::Error;
use vstd::prelude::*;

verus! {

/// The digit for a value below sixteen: `0` to `9`, then `a` to `f`.
pub open spec fn hex_digit(n: int) -> char {
    if n < 10 {
        ((48 + n) as u8) as char
    } else {
        ((87 + n) as u8) as char
    }
}

/// Whether `c` is one of the digits that stored text is written in: `0` to
/// `9` and `a` to `f`.
pub open spec fn is_stored_digit(c: char) -> bool {
    ('0' <= c && c <= '9') || ('a' <= c && c <= 'f')
}

/// Whether `c` is a hexadecimal digit, in either case.
pub open spec fn is_hex_digit(c: char) -> bool {
    ('0' <= c && c <= '9') || ('a' <= c && c <= 'f') || ('A' <= c && c <= 'F')
}

/// The value of a hexadecimal digit.
pub open spec fn digit_value(c: char) -> int {
    if '0' <= c && c <= '9' {
        (c as u8) - 48
    } else if 'a' <= c && c <= 'f' {
        (c as u8) - 87
    } else {
        (c as u8) - 55
    }
}

/// The text that stands for `bytes`: for each byte its high digit, then its
/// low digit.
pub open spec fn hex_text(bytes: Seq<u8>) -> Seq<char> {
    Seq::new(
        2 * bytes.len(),
        |i: int|
            if i % 2 == 0 {
                hex_digit(bytes[i / 2] as int / 16)
            } else {
                hex_digit(bytes[i / 2] as int % 16)
            },
    )
}

/// Whether `text` stands for some bytes: an even number of hexadecimal
/// digits.
pub open spec fn is_hex_text(text: Seq<char>) -> bool {
    &&& text.len() % 2 == 0
    &&& forall|i: int| 0 <= i < text.len() ==> is_hex_digit(#[trigger] text[i])
}

/// The bytes that `text` stands for.
pub open spec fn hex_bytes(text: Seq<char>) -> Seq<u8> {
    Seq::new(
        text.len() / 2,
        |i: int| (16 * digit_value(text[2 * i]) + digit_value(text[2 * i + 1])) as u8,
    )
}

/// Every digit that `hex_digit` gives is a digit, and has the value it was
/// given for.
pub proof fn lemma_digit(n: int)
    requires
        0 <= n < 16,
    ensures
        is_stored_digit(hex_digit(n)),
        is_hex_digit(hex_digit(n)),
        digit_value(hex_digit(n)) == n,
{
}

/// Encoded text is two digits a byte, all of them `0` to `9` or `a` to `f`,
/// and it decodes to the bytes it was made from.
pub proof fn lemma_text_reads_back(bytes: Seq<u8>)
    ensures
        hex_text(bytes).len() == 2 * bytes.len(),
        forall|i: int|
            0 <= i < hex_text(bytes).len() ==> is_stored_digit(#[trigger] hex_text(bytes)[i]),
        is_hex_text(hex_text(bytes)),
        hex_bytes(hex_text(bytes)) == bytes,
{
    let text = hex_text(bytes);
    assert forall|i: int| 0 <= i < text.len() implies is_stored_digit(#[trigger] text[i])
        && is_hex_digit(text[i]) by {
        lemma_digit(bytes[i / 2] as int / 16);
        lemma_digit(bytes[i / 2] as int % 16);
    }
    assert forall|i: int| 0 <= i < bytes.len() implies hex_bytes(text)[i] == bytes[i] by {
        lemma_digit(bytes[i] as int / 16);
        lemma_digit(bytes[i] as int % 16);
        assert((2 * i) / 2 == i && (2 * i) % 2 == 0);
        assert((2 * i + 1) / 2 == i && (2 * i + 1) % 2 == 1);
    }
    assert(hex_bytes(text) =~= bytes);
}

/// Different bytes have different text.
pub proof fn lemma_text_tells_bytes_apart(a: Seq<u8>, b: Seq<u8>)
    requires
        hex_text(a) == hex_text(b),
    ensures
        a == b,
{
    lemma_text_reads_back(a);
    lemma_text_reads_back(b);
}

/// `hex::encode` on a byte slice. Its documentation gives the result in
/// full: lowercase digits, two for each byte, the high one first.
#[verifier::external_body]
fn hex_encode(bytes: &[u8]) -> (text: String)
    ensures
        text@ == hex_text(bytes@),
{
    hex::encode(bytes)
}

/// `hex::decode` on a string. It succeeds exactly on an even number of
/// hexadecimal digits, upper or lower case, and then gives the byte of each
/// pair. A character outside ASCII is never a digit: each byte of its UTF-8
/// form is refused, so counting characters and counting bytes agree on
/// every text that is accepted.
#[verifier::external_body]
fn hex_decode(text: &str) -> (r: Result<Vec<u8>, hex::FromHexError>)
    ensures
        r is Ok <==> is_hex_text(text@),
        r matches Ok(bytes) ==> bytes@ == hex_bytes(text@),
{
    hex::decode(text)
}

/// The text under which `bytes` are stored. It holds nothing but the digits
/// `0` to `9` and `a` to `f`, and `decode` reads it back as `bytes`.
pub fn encode(bytes: &[u8]) -> (text: String)
    ensures
        text@ == hex_text(bytes@),
        forall|i: int| 0 <= i < text@.len() ==> is_stored_digit(#[trigger] text@[i]),
        is_hex_text(text@),
        hex_bytes(text@) == bytes@,
{
    proof {
        lemma_text_reads_back(bytes@);
    }
    hex_encode(bytes)
}

/// The bytes that stored text stands for, or `Error::Hex` where the text is
/// not hexadecimal.
pub fn decode(text: &str) -> (r: Result<Vec<u8>, Error>)
    ensures
        is_hex_text(text@) ==> r is Ok && r->Ok_0@ == hex_bytes(text@),
        !is_hex_text(text@) ==> r is Err && r->Err_0 is Hex,
{
    match hex_decode(text) {
        Ok(bytes) => Ok(bytes),
        Err(e) => Err(Error::Hex(e)),
    }
}

} // verus!
