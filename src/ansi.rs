//! Removal of terminal escape sequences from text.

use vstd::prelude::*;
use vstd::utf8::*;

verus! {

/// What `strip_ansi_escapes::strip` leaves of a byte sequence.
pub uninterp spec fn ansi_stripped(bytes: Seq<u8>) -> Seq<u8>;

/// Relies on `strip_ansi_escapes::strip`: the bytes with escape sequences
/// removed, a result that depends on the bytes alone.
#[verifier::external_body]
fn strip_escape_bytes(bytes: &[u8]) -> (r: Vec<u8>)
    ensures
        r@ == ansi_stripped(bytes@),
{
    strip_ansi_escapes::strip(bytes)
}

/// Relies on `String::from_utf8`: a string exactly when the bytes are valid
/// UTF-8, holding the characters that they encode.
#[verifier::external_body]
fn decode_utf8_bytes(bytes: Vec<u8>) -> (r: Option<String>)
    ensures
        r.is_some() == valid_utf8(bytes@),
        r matches Some(s) ==> s@ == decode_utf8(bytes@),
{
    String::from_utf8(bytes).ok()
}

/// The text with escape sequences removed, or the text unchanged where what
/// remains of its bytes is not valid UTF-8.
pub open spec fn stripped_text(s: Seq<char>) -> Seq<char> {
    let bytes = ansi_stripped(encode_utf8(s));
    if valid_utf8(bytes) {
        decode_utf8(bytes)
    } else {
        s
    }
}

/// Strips ansi color escape codes from a string, or returns it unchanged
/// where the stripped bytes do not form valid UTF-8.
pub fn strip_ansi_codes_from_string(string: &str) -> (r: String)
    ensures
        r@ == stripped_text(string@),
{
    let stripped = strip_escape_bytes(string.as_bytes());
    match decode_utf8_bytes(stripped) {
        Some(s) => s,
        None => string.to_owned(),
    }
}

} // verus!
