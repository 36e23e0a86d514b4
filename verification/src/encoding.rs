//! Text encodings of byte strings: lowercase hexadecimal (through the `hex`
//! crate) and standard padded Base64 (through the `base64` crate).
use base64::Engine;
use vstd::prelude::*;

verus! {

/// The lowercase hexadecimal digit for a value in `0..16`.
pub open spec fn hex_digit(v: int) -> char {
    if v < 10 {
        (48 + v) as char
    } else {
        (87 + v) as char
    }
}

/// Lowercase hexadecimal text of `bytes`: two digits per byte, high nibble first.
pub open spec fn hex_lower(bytes: Seq<u8>) -> Seq<char> {
    Seq::new(
        2 * bytes.len(),
        |i: int|
            if i % 2 == 0 {
                hex_digit(bytes[i / 2] as int / 16)
            } else {
                hex_digit(bytes[i / 2] as int % 16)
            },
    )
}

/// A character that `hex_lower` can produce.
pub open spec fn is_lower_hex_char(c: char) -> bool {
    ('0' <= c && c <= '9') || ('a' <= c && c <= 'f')
}

/// The character of the standard Base64 alphabet for a value in `0..64`.
pub open spec fn base64_char(v: int) -> char {
    if v < 26 {
        (65 + v) as char
    } else if v < 52 {
        (71 + v) as char
    } else if v < 62 {
        (v - 4) as char
    } else if v == 62 {
        '+'
    } else {
        '/'
    }
}

/// Number of characters of the padded Base64 text of `n` bytes.
pub open spec fn base64_len(n: int) -> int {
    4 * ((n + 2) / 3)
}

/// The byte at `i`, or zero past the end (the implicit zero bits of a short group).
pub open spec fn byte_or_zero(bytes: Seq<u8>, i: int) -> int {
    if i < bytes.len() {
        bytes[i] as int
    } else {
        0
    }
}

/// Standard Base64 (RFC 4648 alphabet, `=` padding) of `bytes`.
/// Every group of three bytes gives four characters; a final group of one or
/// two bytes is completed with zero bits and padded with `=`.
pub open spec fn base64_standard(bytes: Seq<u8>) -> Seq<char> {
    Seq::new(
        base64_len(bytes.len() as int) as nat,
        |i: int|
            {
                let g = 3 * (i / 4);
                let b0 = byte_or_zero(bytes, g);
                let b1 = byte_or_zero(bytes, g + 1);
                let b2 = byte_or_zero(bytes, g + 2);
                if i % 4 == 0 {
                    base64_char(b0 / 4)
                } else if i % 4 == 1 {
                    base64_char((b0 % 4) * 16 + b1 / 16)
                } else if i % 4 == 2 {
                    if g + 1 >= bytes.len() {
                        '='
                    } else {
                        base64_char((b1 % 16) * 4 + b2 / 64)
                    }
                } else {
                    if g + 2 >= bytes.len() {
                        '='
                    } else {
                        base64_char(b2 % 64)
                    }
                }
            },
    )
}

/// A character that `base64_standard` can produce.
pub open spec fn is_base64_char(c: char) -> bool {
    ('A' <= c && c <= 'Z') || ('a' <= c && c <= 'z') || ('0' <= c && c <= '9') || c == '+'
        || c == '/' || c == '='
}

/// `hex::encode`: the lowercase hexadecimal text of `bytes`, two characters per
/// byte with the high nibble first, as the crate's table `0123456789abcdef`
/// gives them. The text of more than `usize::MAX / 4` bytes would not fit in
/// a `String`, so such inputs are left out.
#[verifier::external_body]
pub(crate) fn hex_encode(bytes: &[u8]) -> (text: String)
    requires
        bytes@.len() <= usize::MAX / 4,
    ensures
        text@ == hex_lower(bytes@),
{
    hex::encode(bytes)
}

/// `base64::engine::general_purpose::STANDARD.encode`: standard alphabet with
/// `=` padding. The crate panics when the encoded length does not fit, and a
/// `String` holds at most `isize::MAX` bytes, so longer inputs are left out.
#[verifier::external_body]
pub(crate) fn base64_encode(bytes: &[u8]) -> (text: String)
    requires
        base64_len(bytes@.len() as int) <= isize::MAX,
    ensures
        text@ == base64_standard(bytes@),
{
    base64::engine::general_purpose::STANDARD.encode(bytes)
}

/// Hexadecimal text is twice as long as its bytes and uses only `0-9a-f`.
pub proof fn lemma_hex_lower_shape(bytes: Seq<u8>)
    ensures
        hex_lower(bytes).len() == 2 * bytes.len(),
        forall|i: int| 0 <= i < hex_lower(bytes).len() ==> is_lower_hex_char(#[trigger] hex_lower(bytes)[i]),
{
    assert forall|i: int| 0 <= i < hex_lower(bytes).len() implies is_lower_hex_char(
        #[trigger] hex_lower(bytes)[i],
    ) by {
        let b = bytes[i / 2] as int;
        assert(0 <= b / 16 < 16);
        assert(0 <= b % 16 < 16);
    }
}

/// Base64 text has `4 * ceil(n / 3)` characters, all from the standard
/// alphabet or `=`.
pub proof fn lemma_base64_shape(bytes: Seq<u8>)
    ensures
        base64_standard(bytes).len() == base64_len(bytes.len() as int),
        forall|i: int| 0 <= i < base64_standard(bytes).len() ==> is_base64_char(#[trigger] base64_standard(bytes)[i]),
{
    assert forall|i: int| 0 <= i < base64_standard(bytes).len() implies is_base64_char(
        #[trigger] base64_standard(bytes)[i],
    ) by {
        let g = 3 * (i / 4);
        let b0 = byte_or_zero(bytes, g);
        let b1 = byte_or_zero(bytes, g + 1);
        let b2 = byte_or_zero(bytes, g + 2);
        assert(0 <= b0 < 256 && 0 <= b1 < 256 && 0 <= b2 < 256);
        assert(0 <= b0 / 4 < 64);
        assert(0 <= (b0 % 4) * 16 + b1 / 16 < 64);
        assert(0 <= (b1 % 16) * 4 + b2 / 64 < 64);
        assert(0 <= b2 % 64 < 64);
    }
}

} // verus!
