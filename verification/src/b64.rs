//! Base64url decoding through the `base64` crate, used for JWT payloads.

use vstd::prelude::*;
use base64::Engine;

verus! {

/// What decoding `s` as unpadded base64url yields, or nothing when `s` is
/// not valid base64url.
pub uninterp spec fn b64url_decoded(s: Seq<u8>) -> Option<Seq<u8>>;

/// Relies on `base64`'s `URL_SAFE_NO_PAD` engine: decodes an unpadded
/// base64url string. Deterministic in the input bytes.
#[verifier::external_body]
pub fn b64url_decode(s: &[u8]) -> (r: Option<Vec<u8>>)
    ensures
        match r {
            Some(v) => b64url_decoded(s@) == Some(v@),
            None => b64url_decoded(s@) is None,
        },
{
    match base64::engine::general_purpose::URL_SAFE_NO_PAD.decode(s) {
        Ok(v) => Some(v),
        Err(_) => None,
    }
}

} // verus!
