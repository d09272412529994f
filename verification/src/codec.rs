//! Base64 text, decoded with the standard alphabet and padding.

use vstd::prelude::*;

verus! {

/// What the standard base64 engine decodes `s` to: the bytes, or the
/// message of the decode error.
pub uninterp spec fn base64_standard_decoding(s: Seq<char>) -> Result<Seq<u8>, Seq<char>>;

/// `base64::engine::general_purpose::STANDARD.decode`. Trusted: the result
/// is named, not described; it depends on `s` alone. The error is turned
/// into its message.
#[verifier::external_body]
pub(crate) fn base64_decode(s: &str) -> (r: Result<Vec<u8>, String>)
    ensures
        match (r, base64_standard_decoding(s@)) {
            (Ok(a), Ok(b)) => a@ == b,
            (Err(a), Err(b)) => a@ == b,
            _ => false,
        },
{
    match base64::Engine::decode(&base64::engine::general_purpose::STANDARD, s) {
        Ok(bytes) => Ok(bytes),
        Err(e) => Err(e.to_string()),
    }
}

} // verus!
