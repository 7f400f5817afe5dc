//! The base64 transfer encoding, named for the contracts and called
//! through trusted wrappers.

use vstd::prelude::*;

use base64::Engine;

verus! {

/// What the standard padded base64 encoding of `bytes` is; a function of
/// the bytes alone.
pub uninterp spec fn b64_encode(bytes: Seq<u8>) -> Seq<char>;

/// What standard padded base64 decoding accepts and yields; a function of
/// the text alone.
pub uninterp spec fn b64_decode(text: Seq<char>) -> Option<Seq<u8>>;

/// Relies on base64's STANDARD engine encode: the result depends on the
/// input bytes alone, and the padded output takes four characters for
/// every started group of three bytes.
#[verifier::external_body]
pub(crate) fn base64_encode(bytes: &Vec<u8>) -> (r: String)
    requires
        4 * ((bytes@.len() + 2) / 3) <= usize::MAX,
    ensures
        r@ == b64_encode(bytes@),
        r@.len() == 4 * ((bytes@.len() + 2) / 3),
{
    base64::engine::general_purpose::STANDARD.encode(bytes)
}

/// Relies on base64's STANDARD engine decode: the result depends on the
/// input text alone.
#[verifier::external_body]
pub(crate) fn base64_decode(text: &str) -> (r: Option<Vec<u8>>)
    ensures
        match r {
            Some(v) => b64_decode(text@) == Some(v@),
            None => b64_decode(text@) is None,
        },
{
    match base64::engine::general_purpose::STANDARD.decode(text) {
        Ok(v) => Some(v),
        Err(_) => None,
    }
}

} // verus!
