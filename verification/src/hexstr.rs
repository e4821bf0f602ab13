//! Hex text for byte strings, through the `hex` crate: signatures arrive
//! hex-encoded and hashes leave hex-encoded.

use vstd::prelude::*;

verus! {

/// Whether a character is a hex digit: `0..9`, `a..f` or `A..F`.
pub open spec fn is_hex_digit(c: char) -> bool {
    (48 <= c as u32 && c as u32 <= 57) || (97 <= c as u32 && c as u32 <= 102) || (65 <= c as u32
        && c as u32 <= 70)
}

/// The value of a hex digit.
pub open spec fn hex_digit_value(c: char) -> u8
    recommends
        is_hex_digit(c),
{
    let n = c as u32;
    if 48 <= n && n <= 57 {
        (n - 48) as u8
    } else if 97 <= n && n <= 102 {
        (n - 87) as u8
    } else if 65 <= n && n <= 70 {
        (n - 55) as u8
    } else {
        0
    }
}

/// The lowercase hex digit for a value below 16.
pub open spec fn hex_digit_char(n: u8) -> char
    recommends
        n < 16,
{
    seq!['0', '1', '2', '3', '4', '5', '6', '7', '8', '9', 'a', 'b', 'c', 'd', 'e', 'f'][n as int]
}

/// The texts that decode to bytes: an even number of hex digits.
pub open spec fn spec_hex_valid(s: Seq<char>) -> bool {
    s.len() % 2 == 0 && forall|i: int| 0 <= i < s.len() ==> #[trigger] is_hex_digit(s[i])
}

/// The bytes a valid hex text decodes to: one byte per digit pair, high
/// nibble first.
pub open spec fn spec_hex_decoded(s: Seq<char>) -> Seq<u8>
    recommends
        spec_hex_valid(s),
{
    Seq::new((s.len() / 2) as nat, |i: int| (16 * hex_digit_value(s[2 * i]) + hex_digit_value(
        s[2 * i + 1],
    )) as u8)
}

/// The lowercase hex text of a byte string: two digits per byte, high nibble
/// first.
pub open spec fn spec_hex_encoding(b: Seq<u8>) -> Seq<char> {
    Seq::new(
        2 * b.len(),
        |i: int| if i % 2 == 0 {
            hex_digit_char((b[i / 2] / 16) as u8)
        } else {
            hex_digit_char((b[i / 2] % 16) as u8)
        },
    )
}

/// Relies on `hex::encode`: each byte becomes two lowercase hex digits,
/// high nibble first.
#[verifier::external_body]
pub(crate) fn hex_encode_bytes(bytes: &[u8]) -> (hex_text: String)
    ensures
        hex_text@ == spec_hex_encoding(bytes@),
{
    hex::encode(bytes)
}

/// Relies on `hex::decode`: an even-length text of hex digits (either case)
/// becomes one byte per digit pair, high nibble first; any other text is
/// refused.
#[verifier::external_body]
pub(crate) fn hex_decode_str(hex_text: &str) -> (result: Option<Vec<u8>>)
    ensures
        result is Some <==> spec_hex_valid(hex_text@),
        result matches Some(bytes) ==> bytes@ == spec_hex_decoded(hex_text@),
{
    hex::decode(hex_text).ok()
}

} // verus!
