//! Token exchange: CSRF/state validation, the form parameters of the token
//! request, and the handling of the token endpoint's response.

use vstd::prelude::*;
use vstd::slice::slice_to_vec;
use vstd::string::StringSliceAdditionalSpecFns;
use crate::bytes::{bytes_eq, str_bytes};
use crate::flow::{AuthFlow, auth_code_client_id, auth_code_redirect_uri};
use crate::query::pairs_view;
use crate::jsonio::{json_str_field_of, json_u64_field_of, json_str_field, json_u64_field};
use crate::error::Error;

verus! {

/// The bundle a successful token exchange yields. Never persisted; consumed
/// by session establishment and identity resolution within the same
/// attempt.
#[derive(Debug, Clone)]
pub struct OAuthToken {
    pub access_token: Vec<u8>,
    pub refresh_token: Vec<u8>,
    pub expires_in: u64,
    pub id_token: Vec<u8>,
    pub scope: Vec<u8>,
    pub token_type: Vec<u8>,
}

/// The form fields of the token request: client id, redirect URI, grant
/// type, the authorization code and the PKCE verifier.
pub open spec fn token_request_params(code: Seq<u8>, verifier: Seq<u8>) -> Seq<(Seq<u8>, Seq<u8>)> {
    seq![
        ("client_id".spec_bytes(), auth_code_client_id()),
        ("redirect_uri".spec_bytes(), auth_code_redirect_uri()),
        ("grant_type".spec_bytes(), "authorization_code".spec_bytes()),
        ("code".spec_bytes(), code),
        ("code_verifier".spec_bytes(), verifier),
    ]
}

/// Validates the returned state against the flow's CSRF token and, only on
/// a match, yields the form parameters of the token request. A mismatch
/// fails the whole attempt here, before any request exists.
pub fn token_request(flow: &AuthFlow, code: &[u8], state: &[u8]) -> (r: Result<
    Vec<(Vec<u8>, Vec<u8>)>,
    Error,
>)
    ensures
        state@ == flow.csrf_token@ ==> (r matches Ok(ps) && pairs_view(ps@)
            == token_request_params(code@, flow.verifier@)),
        state@ != flow.csrf_token@ ==> (r matches Err(e) && e is CsrfMismatch),
{
    if !bytes_eq(state, flow.csrf_token.as_slice()) {
        return Err(Error::CsrfMismatch);
    }
    let mut params: Vec<(Vec<u8>, Vec<u8>)> = Vec::new();
    params.push((str_bytes("client_id"), str_bytes("com_jagex_auth_desktop_launcher")));
    params.push(
        (
            str_bytes("redirect_uri"),
            str_bytes("https://secure.runescape.com/m=weblogin/launcher-redirect"),
        ),
    );
    params.push((str_bytes("grant_type"), str_bytes("authorization_code")));
    params.push((str_bytes("code"), slice_to_vec(code)));
    params.push((str_bytes("code_verifier"), slice_to_vec(flow.verifier.as_slice())));
    proof {
        assert(pairs_view(params@) =~~= token_request_params(code@, flow.verifier@));
    }
    Ok(params)
}

/// HTTP success, as the pipeline reads it.
pub open spec fn is_success_status(status: u16) -> bool {
    200 <= status < 300
}

/// The provider's structured OAuth error in a response body: the `error`
/// code together with the `error_description`, which defaults to empty
/// when absent.
pub open spec fn provider_error_of(body: Seq<u8>) -> Option<(Seq<u8>, Seq<u8>)> {
    match json_str_field_of(body, "error"@) {
        Some(c) => Some(
            (
                c,
                match json_str_field_of(body, "error_description"@) {
                    Some(d) => d,
                    None => Seq::<u8>::empty(),
                },
            ),
        ),
        None => None,
    }
}

/// How every non-2xx provider response is surfaced: the provider's error
/// code and description verbatim, or a malformed-response failure when the
/// body carries no structured error.
pub open spec fn provider_error_result(body: Seq<u8>, e: Error) -> bool {
    match provider_error_of(body) {
        Some(pe) => e matches Error::Auth { code, description } && code@ == pe.0 && description@
            == pe.1,
        None => e is MalformedResponse,
    }
}

/// Maps a non-2xx response body to the error it surfaces.
pub fn provider_error(body: &[u8]) -> (e: Error)
    ensures
        provider_error_result(body@, e),
{
    match json_str_field(body, "error") {
        Some(code) => {
            let description = match json_str_field(body, "error_description") {
                Some(d) => d,
                None => Vec::new(),
            };
            Error::Auth { code, description }
        },
        None => Error::MalformedResponse,
    }
}

/// Whether a token-endpoint success body carries all six token fields.
pub open spec fn token_fields_present(body: Seq<u8>) -> bool {
    &&& json_str_field_of(body, "access_token"@) is Some
    &&& json_str_field_of(body, "refresh_token"@) is Some
    &&& json_u64_field_of(body, "expires_in"@) is Some
    &&& json_str_field_of(body, "id_token"@) is Some
    &&& json_str_field_of(body, "scope"@) is Some
    &&& json_str_field_of(body, "token_type"@) is Some
}

/// The token bundle `t` is exactly what `body` carries.
pub open spec fn token_matches_body(t: OAuthToken, body: Seq<u8>) -> bool {
    &&& json_str_field_of(body, "access_token"@) == Some(t.access_token@)
    &&& json_str_field_of(body, "refresh_token"@) == Some(t.refresh_token@)
    &&& json_u64_field_of(body, "expires_in"@) == Some(t.expires_in)
    &&& json_str_field_of(body, "id_token"@) == Some(t.id_token@)
    &&& json_str_field_of(body, "scope"@) == Some(t.scope@)
    &&& json_str_field_of(body, "token_type"@) == Some(t.token_type@)
}

/// Reads the token endpoint's response: a 2xx status with a well-formed
/// body yields the token bundle with all six fields populated; a non-2xx
/// status surfaces the provider's error code and description verbatim.
pub fn oauth_token(status: u16, body: &[u8]) -> (r: Result<OAuthToken, Error>)
    ensures
        is_success_status(status) && token_fields_present(body@) ==> (r matches Ok(t)
            && token_matches_body(t, body@)),
        is_success_status(status) && !token_fields_present(body@) ==> (r matches Err(e)
            && e is MalformedResponse),
        !is_success_status(status) ==> (r matches Err(e) && provider_error_result(body@, e)),
{
    if !(200 <= status && status < 300) {
        return Err(provider_error(body));
    }
    let access_token = match json_str_field(body, "access_token") {
        Some(v) => v,
        None => {
            return Err(Error::MalformedResponse);
        },
    };
    let refresh_token = match json_str_field(body, "refresh_token") {
        Some(v) => v,
        None => {
            return Err(Error::MalformedResponse);
        },
    };
    let expires_in = match json_u64_field(body, "expires_in") {
        Some(v) => v,
        None => {
            return Err(Error::MalformedResponse);
        },
    };
    let id_token = match json_str_field(body, "id_token") {
        Some(v) => v,
        None => {
            return Err(Error::MalformedResponse);
        },
    };
    let scope = match json_str_field(body, "scope") {
        Some(v) => v,
        None => {
            return Err(Error::MalformedResponse);
        },
    };
    let token_type = match json_str_field(body, "token_type") {
        Some(v) => v,
        None => {
            return Err(Error::MalformedResponse);
        },
    };
    Ok(OAuthToken { access_token, refresh_token, expires_in, id_token, scope, token_type })
}

} // verus!
