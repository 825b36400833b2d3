//! Byte-to-text encodings: lowercase hexadecimal and standard base64.

use vstd::prelude::*;

verus! {

/// The lowercase hexadecimal digit for `n` (`n < 16`).
pub open spec fn hex_digit(n: nat) -> char {
    if n < 10 {
        ((n + 48) as u8) as char
    } else {
        ((n + 87) as u8) as char
    }
}

/// Two lowercase hexadecimal digits for each byte, the high nibble first.
pub open spec fn lower_hex(bytes: Seq<u8>) -> Seq<char> {
    Seq::new(
        2 * bytes.len(),
        |i: int|
            if i % 2 == 0 {
                hex_digit((bytes[i / 2] / 16) as nat)
            } else {
                hex_digit((bytes[i / 2] % 16) as nat)
            },
    )
}

/// The character of the standard base64 alphabet for a 6-bit value.
pub open spec fn base64_char(v: nat) -> char {
    if v < 26 {
        ((v + 65) as u8) as char
    } else if v < 52 {
        ((v + 71) as u8) as char
    } else if v < 62 {
        ((v - 4) as u8) as char
    } else if v == 62 {
        '+'
    } else {
        '/'
    }
}

/// Standard base64 (RFC 4648, section 4) with `=` padding.
pub open spec fn base64_standard(bytes: Seq<u8>) -> Seq<char>
    decreases bytes.len(),
{
    if bytes.len() == 0 {
        Seq::empty()
    } else if bytes.len() == 1 {
        seq![
            base64_char((bytes[0] / 4) as nat),
            base64_char(((bytes[0] % 4) * 16) as nat),
            '=',
            '=',
        ]
    } else if bytes.len() == 2 {
        seq![
            base64_char((bytes[0] / 4) as nat),
            base64_char(((bytes[0] % 4) * 16 + bytes[1] / 16) as nat),
            base64_char(((bytes[1] % 16) * 4) as nat),
            '=',
        ]
    } else {
        seq![
            base64_char((bytes[0] / 4) as nat),
            base64_char(((bytes[0] % 4) * 16 + bytes[1] / 16) as nat),
            base64_char(((bytes[1] % 16) * 4 + bytes[2] / 64) as nat),
            base64_char((bytes[2] % 64) as nat),
        ] + base64_standard(bytes.subrange(3, bytes.len() as int))
    }
}

/// Relies on `base16ct::lower::encode_string`: each byte becomes two
/// lowercase hex digits, high nibble first. It panics only when the
/// doubled length overflows, which `requires` rules out.
#[verifier::external_body]
pub(crate) fn encode_lower_hex(bytes: &[u8]) -> (r: String)
    requires
        2 * bytes@.len() <= usize::MAX,
    ensures
        r@ == lower_hex(bytes@),
{
    base16ct::lower::encode_string(bytes)
}

/// Relies on `base64::Engine::encode` with the `STANDARD` engine: the
/// RFC 4648 alphabet with `=` padding. It panics only when the encoded
/// length overflows, which `requires` rules out.
#[verifier::external_body]
pub(crate) fn encode_base64(bytes: &[u8]) -> (r: String)
    requires
        2 * bytes@.len() <= usize::MAX,
    ensures
        r@ == base64_standard(bytes@),
{
    base64::Engine::encode(&base64::engine::general_purpose::STANDARD, bytes)
}

} // verus!
