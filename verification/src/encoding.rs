//! Base64, the form in which the content of a file crosses to the user
//! interface.

use base64::Engine;
use vstd::prelude::*;
use crate::models::ApiResponse;

verus! {

/// The character of the standard alphabet for the six-bit value `v`:
/// `A` to `Z`, `a` to `z`, `0` to `9`, `+` and `/`.
pub open spec fn base64_symbol(v: int) -> char {
    if v < 26 {
        (v + 65) as u8 as char
    } else if v < 52 {
        (v + 71) as u8 as char
    } else if v < 62 {
        (v - 4) as u8 as char
    } else if v == 62 {
        '+'
    } else {
        '/'
    }
}

/// The standard base64 text of `bytes`, padded with `=` to a multiple of
/// four characters: each three bytes give four characters of six bits each,
/// most significant first; one or two bytes left over give two or three
/// characters, the last one filled up with zero bits.
pub open spec fn base64_standard(bytes: Seq<u8>) -> Seq<char>
    decreases bytes.len(),
{
    if bytes.len() == 0 {
        Seq::empty()
    } else if bytes.len() == 1 {
        seq![
            base64_symbol(bytes[0] as int / 4),
            base64_symbol(bytes[0] as int % 4 * 16),
            '=',
            '=',
        ]
    } else if bytes.len() == 2 {
        seq![
            base64_symbol(bytes[0] as int / 4),
            base64_symbol(bytes[0] as int % 4 * 16 + bytes[1] as int / 16),
            base64_symbol(bytes[1] as int % 16 * 4),
            '=',
        ]
    } else {
        seq![
            base64_symbol(bytes[0] as int / 4),
            base64_symbol(bytes[0] as int % 4 * 16 + bytes[1] as int / 16),
            base64_symbol(bytes[1] as int % 16 * 4 + bytes[2] as int / 64),
            base64_symbol(bytes[2] as int % 64),
        ] + base64_standard(bytes.skip(3))
    }
}

/// Calls `Engine::encode` of `base64` on its `STANDARD` engine: the
/// standard alphabet, with padding. The crate panics where the length of
/// the text does not fit the machine's word, which `requires` leaves out.
#[verifier::external_body]
fn encode_standard(bytes: &[u8]) -> (text: String)
    requires
        bytes@.len() / 3 * 4 + 4 <= usize::MAX,
    ensures
        text@ == base64_standard(bytes@),
{
    base64::engine::general_purpose::STANDARD.encode(bytes)
}

/// Whether the base64 text of `len` bytes fits the machine's word.
pub open spec fn encodable(len: nat) -> bool {
    len / 3 * 4 + 4 <= usize::MAX
}

/// The answer that carries the content of a file as base64 text.
pub fn file_as_base64(bytes: &[u8]) -> (r: ApiResponse<String>)
    requires
        encodable(bytes@.len()),
    ensures
        r.success,
        r.error is None,
        r.data matches Some(text) && text@ == base64_standard(bytes@),
{
    ApiResponse::success(encode_standard(bytes))
}

} // verus!
