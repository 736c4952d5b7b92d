//! Session establishment: the hidden hybrid-flow authorization URL, the
//! issuance request body, and the assembly of the game session from the
//! captured redirect fragment and the issuance response.

use vstd::prelude::*;
use vstd::slice::slice_to_vec;
use vstd::string::StringSliceAdditionalSpecFns;
use crate::bytes::str_bytes;
use crate::flow::{url_with_query, build_url};
use crate::query::{pairs_view, lookup_param, find_param};
use crate::jsonio::{json_str_field_of, json_str_field};
use crate::random::{new_csrf_token, new_nonce};
use crate::token::{is_success_status, provider_error_result, provider_error};
use crate::error::Error;

verus! {

/// The client id of the hidden session flow.
pub open spec fn session_client_id() -> Seq<u8> {
    "1fddee4e-b100-4f4e-b2b0-097f9088f9d2".spec_bytes()
}

/// The redirect prefix the hidden session flow is intercepted on.
pub open spec fn session_redirect_uri() -> Seq<u8> {
    "http://localhost".spec_bytes()
}

pub fn session_redirect_uri_bytes() -> (r: Vec<u8>)
    ensures
        r@ == session_redirect_uri(),
{
    str_bytes("http://localhost")
}

/// The query parameters of the hidden hybrid authorization request: both a
/// code and an id token are requested, and the freshly obtained id token is
/// passed as a login hint.
pub open spec fn session_request_params(
    state: Seq<u8>,
    nonce: Seq<u8>,
    id_token_hint: Seq<u8>,
) -> Seq<(Seq<u8>, Seq<u8>)> {
    seq![
        ("response_type".spec_bytes(), "code id_token".spec_bytes()),
        ("client_id".spec_bytes(), session_client_id()),
        ("state".spec_bytes(), state),
        ("redirect_uri".spec_bytes(), session_redirect_uri()),
        ("nonce".spec_bytes(), nonce),
        ("scope".spec_bytes(), "openid offline".spec_bytes()),
        ("id_token_hint".spec_bytes(), id_token_hint),
    ]
}

/// Builds the hidden hybrid-flow authorization URL on the provider's
/// authorization endpoint.
pub fn session_request_url(
    auth_endpoint: &[u8],
    state: &[u8],
    nonce: &[u8],
    id_token_hint: &[u8],
) -> (r: Vec<u8>)
    ensures
        r@ == url_with_query(auth_endpoint@, session_request_params(state@, nonce@, id_token_hint@)),
{
    let mut params: Vec<(Vec<u8>, Vec<u8>)> = Vec::new();
    params.push((str_bytes("response_type"), str_bytes("code id_token")));
    params.push((str_bytes("client_id"), str_bytes("1fddee4e-b100-4f4e-b2b0-097f9088f9d2")));
    params.push((str_bytes("state"), slice_to_vec(state)));
    params.push((str_bytes("redirect_uri"), str_bytes("http://localhost")));
    params.push((str_bytes("nonce"), slice_to_vec(nonce)));
    params.push((str_bytes("scope"), str_bytes("openid offline")));
    params.push((str_bytes("id_token_hint"), slice_to_vec(id_token_hint)));
    proof {
        assert(pairs_view(params@) =~~= session_request_params(state@, nonce@, id_token_hint@));
    }
    build_url(auth_endpoint, &params)
}

/// One run of the hidden session flow: its authorization URL and the
/// fresh state and nonce embedded in it.
pub struct SessionFlow {
    pub request_url: Vec<u8>,
    pub state: Vec<u8>,
    pub nonce: Vec<u8>,
}

/// Initiates the hidden session flow: draws a fresh random state and nonce
/// for this request — never the primary flow's, whose state has already
/// round-tripped through the attacker-observable primary redirect — and
/// builds the hybrid authorization URL around them.
pub fn begin_session(auth_endpoint: &[u8], id_token_hint: &[u8]) -> (r: SessionFlow)
    ensures
        r.request_url@ == url_with_query(
            auth_endpoint@,
            session_request_params(r.state@, r.nonce@, id_token_hint@),
        ),
{
    let state = new_csrf_token();
    let nonce = new_nonce();
    let request_url = session_request_url(
        auth_endpoint,
        state.as_slice(),
        nonce.as_slice(),
        id_token_hint,
    );
    SessionFlow { request_url, state, nonce }
}

/// The id token a captured session-flow fragment delivers; the issuance
/// call presents it.
pub fn session_id_token(params: &Vec<(Vec<u8>, Vec<u8>)>) -> (r: Result<Vec<u8>, Error>)
    ensures
        match r {
            Ok(v) => lookup_param(pairs_view(params@), "id_token".spec_bytes()) == Some(v@),
            Err(e) => e is MissingRedirectParam && lookup_param(
                pairs_view(params@),
                "id_token".spec_bytes(),
            ) is None,
        },
{
    match find_param(params, "id_token".as_bytes()) {
        Some(v) => Ok(v),
        None => Err(Error::MissingRedirectParam),
    }
}

/// A byte of a JWT in compact form: base64url alphabet or the dot that
/// separates its parts.
pub open spec fn is_jwt_byte(b: u8) -> bool {
    (48 <= b <= 57) || (65 <= b <= 90) || (97 <= b <= 122) || b == 45 || b == 95 || b == 46
}

/// The whole text is made of JWT bytes. Such a text embeds in a JSON
/// string without escaping.
pub open spec fn is_jwt_text(s: Seq<u8>) -> bool {
    forall|i: int| 0 <= i < s.len() ==> is_jwt_byte(#[trigger] s[i])
}

/// Executable form of `is_jwt_text`.
pub fn jwt_text_check(s: &[u8]) -> (r: bool)
    ensures
        r == is_jwt_text(s@),
{
    let n = s.len();
    for i in 0..n
        invariant
            n == s@.len(),
            forall|j: int| 0 <= j < i ==> is_jwt_byte(#[trigger] s@[j]),
    {
        let b = s[i];
        if !((48 <= b && b <= 57) || (65 <= b && b <= 90) || (97 <= b && b <= 122) || b == 45 || b
            == 95 || b == 46) {
            return false;
        }
    }
    true
}

/// The JSON body of the issuance request around a JWT id token.
pub open spec fn issuance_body_of(id_token: Seq<u8>) -> Seq<u8> {
    "{\"idToken\":\"".spec_bytes() + id_token + "\"}".spec_bytes()
}

/// Builds the issuance request body around the captured id token. The
/// token came off an attacker-observable redirect, so anything outside the
/// JWT alphabet — which would need JSON escaping, or could smuggle fields
/// into the body — is rejected instead of embedded.
pub fn session_issuance_body(id_token: &[u8]) -> (r: Result<Vec<u8>, Error>)
    ensures
        is_jwt_text(id_token@) ==> (r matches Ok(b) && b@ == issuance_body_of(id_token@)),
        !is_jwt_text(id_token@) ==> (r matches Err(e) && e is InvalidJwt),
{
    if !jwt_text_check(id_token) {
        return Err(Error::InvalidJwt);
    }
    let mut b = str_bytes("{\"idToken\":\"");
    let mut mid = slice_to_vec(id_token);
    b.append(&mut mid);
    let mut end = str_bytes("\"}");
    b.append(&mut end);
    Ok(b)
}

/// The session-issuance endpoint.
pub open spec fn session_issuance_url() -> Seq<u8> {
    "https://auth.jagex.com/game-session/v1/sessions".spec_bytes()
}

pub fn session_issuance_url_bytes() -> (r: Vec<u8>)
    ensures
        r@ == session_issuance_url(),
{
    str_bytes("https://auth.jagex.com/game-session/v1/sessions")
}

/// A game session. `session_id` comes from a successful issuance response,
/// and `game_session` constructs a value only on success, so every
/// `GameSession` a caller can hold carries an issued session id.
#[derive(Debug, Clone)]
pub struct GameSession {
    pub code: Vec<u8>,
    pub id_token: Vec<u8>,
    pub state: Vec<u8>,
    pub session_id: Vec<u8>,
}

/// The three parameters the captured session fragment must deliver.
pub open spec fn session_params_present(ps: Seq<(Seq<u8>, Seq<u8>)>) -> bool {
    &&& lookup_param(ps, "code".spec_bytes()) is Some
    &&& lookup_param(ps, "state".spec_bytes()) is Some
    &&& lookup_param(ps, "id_token".spec_bytes()) is Some
}

/// Assembles the game session from the captured fragment parameters and
/// the issuance response: the code, state and id token come from the
/// redirect, the session id from a 2xx issuance body. Any missing piece or
/// a non-2xx response fails the attempt.
pub fn game_session(params: &Vec<(Vec<u8>, Vec<u8>)>, status: u16, body: &[u8]) -> (r: Result<
    GameSession,
    Error,
>)
    ensures
        match r {
            Ok(s) => {
                &&& is_success_status(status)
                &&& session_params_present(pairs_view(params@))
                &&& lookup_param(pairs_view(params@), "code".spec_bytes()) == Some(s.code@)
                &&& lookup_param(pairs_view(params@), "state".spec_bytes()) == Some(s.state@)
                &&& lookup_param(pairs_view(params@), "id_token".spec_bytes()) == Some(s.id_token@)
                &&& json_str_field_of(body@, "sessionId"@) == Some(s.session_id@)
            },
            Err(e) => {
                ||| (!session_params_present(pairs_view(params@)) && e is MissingRedirectParam)
                ||| (session_params_present(pairs_view(params@)) && !is_success_status(status)
                    && provider_error_result(body@, e))
                ||| (session_params_present(pairs_view(params@)) && is_success_status(status)
                    && json_str_field_of(body@, "sessionId"@) is None && e is MalformedResponse)
            },
        },
{
    let code = match find_param(params, "code".as_bytes()) {
        Some(v) => v,
        None => {
            return Err(Error::MissingRedirectParam);
        },
    };
    let state = match find_param(params, "state".as_bytes()) {
        Some(v) => v,
        None => {
            return Err(Error::MissingRedirectParam);
        },
    };
    let id_token = match find_param(params, "id_token".as_bytes()) {
        Some(v) => v,
        None => {
            return Err(Error::MissingRedirectParam);
        },
    };
    if !(200 <= status && status < 300) {
        return Err(provider_error(body));
    }
    let session_id = match json_str_field(body, "sessionId") {
        Some(v) => v,
        None => {
            return Err(Error::MalformedResponse);
        },
    };
    Ok(GameSession { code, id_token, state, session_id })
}

} // verus!
