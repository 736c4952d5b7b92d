//! Random material for one login attempt, generated through
//! `openidconnect`: the PKCE verifier/challenge pair, the CSRF token and
//! the nonce. Nothing is promised of the random values themselves beyond
//! the digest relation between verifier and challenge.

use vstd::prelude::*;

verus! {

/// The base64url-encoded SHA-256 digest of a PKCE verifier — the challenge
/// that belongs to it. A function of the verifier alone.
pub uninterp spec fn pkce_challenge_of(verifier: Seq<u8>) -> Seq<u8>;

/// Relies on `openidconnect::PkceCodeChallenge::new_random_sha256`: the
/// verifier is the base64url encoding of 32 random bytes (43 characters),
/// and the challenge is the base64url-encoded SHA-256 digest of the
/// verifier's characters.
#[verifier::external_body]
pub fn new_pkce_pair() -> (r: (Vec<u8>, Vec<u8>))
    ensures
        r.1@ == pkce_challenge_of(r.0@),
        r.0@.len() == 43,
{
    let (challenge, verifier) = openidconnect::PkceCodeChallenge::new_random_sha256();
    (
        verifier.secret().as_bytes().to_vec(),
        challenge.as_str().as_bytes().to_vec(),
    )
}

/// Relies on `openidconnect::CsrfToken::new_random`: a fresh random token;
/// nothing can be promised of its value.
#[verifier::external_body]
pub fn new_csrf_token() -> (r: Vec<u8>) {
    openidconnect::CsrfToken::new_random().into_secret().into_bytes()
}

/// Relies on `openidconnect::Nonce::new_random`: a fresh random nonce;
/// nothing can be promised of its value.
#[verifier::external_body]
pub fn new_nonce() -> (r: Vec<u8>) {
    openidconnect::Nonce::new_random().secret().as_bytes().to_vec()
}

} // verus!
