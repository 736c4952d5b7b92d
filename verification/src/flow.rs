//! Flow initiation: the provider configuration, the PKCE material, and the
//! construction of the authorization URL for one login attempt.

use vstd::prelude::*;
use vstd::slice::slice_to_vec;
use vstd::string::StringSliceAdditionalSpecFns;
use crate::bytes::str_bytes;
use crate::urlenc::{pct_encoded, pct_encode};
use crate::query::pairs_view;
use crate::jsonio::{json_str_field_of, json_str_field};
use crate::random::{pkce_challenge_of, new_pkce_pair, new_csrf_token, new_nonce};
use crate::error::Error;

verus! {

/// One `key=value` of a query string, both sides percent-encoded.
pub open spec fn encoded_pair(k: Seq<u8>, v: Seq<u8>) -> Seq<u8> {
    pct_encoded(k) + seq![61u8] + pct_encoded(v)
}

/// A query string: encoded pairs joined by `&`.
pub open spec fn encoded_query(ps: Seq<(Seq<u8>, Seq<u8>)>) -> Seq<u8>
    decreases ps.len(),
{
    if ps.len() == 0 {
        Seq::<u8>::empty()
    } else if ps.len() == 1 {
        encoded_pair(ps[0].0, ps[0].1)
    } else {
        encoded_pair(ps[0].0, ps[0].1) + seq![38u8] + encoded_query(ps.drop_first())
    }
}

/// An endpoint with a query string appended.
pub open spec fn url_with_query(endpoint: Seq<u8>, ps: Seq<(Seq<u8>, Seq<u8>)>) -> Seq<u8> {
    endpoint + seq![63u8] + encoded_query(ps)
}

pub proof fn lemma_encoded_query_push(ps: Seq<(Seq<u8>, Seq<u8>)>, k: Seq<u8>, v: Seq<u8>)
    ensures
        ps.len() == 0 ==> encoded_query(ps.push((k, v))) =~= encoded_pair(k, v),
        ps.len() > 0 ==> encoded_query(ps.push((k, v))) =~= encoded_query(ps) + seq![38u8]
            + encoded_pair(k, v),
    decreases ps.len(),
{
    let t = ps.push((k, v));
    assert(t.len() == ps.len() + 1);
    if ps.len() == 0 {
        assert(t[0] == (k, v));
    } else {
        lemma_encoded_query_push(ps.drop_first(), k, v);
        assert(t.drop_first() =~= ps.drop_first().push((k, v)));
        assert(t[0] == ps[0]);
        if ps.len() == 1 {
            assert(encoded_query(t) == encoded_pair(t[0].0, t[0].1) + seq![38u8] + encoded_query(
                t.drop_first(),
            ));
            assert(encoded_query(t.drop_first()) =~= encoded_pair(k, v));
        }
    }
}

/// Builds `endpoint?k1=v1&k2=v2&...`, percent-encoding keys and values.
pub fn build_url(endpoint: &[u8], params: &Vec<(Vec<u8>, Vec<u8>)>) -> (r: Vec<u8>)
    ensures
        r@ == url_with_query(endpoint@, pairs_view(params@)),
{
    let mut r = slice_to_vec(endpoint);
    r.push(63u8);
    let n = params.len();
    proof {
        assert(pairs_view(params@).take(0int) =~= Seq::<(Seq<u8>, Seq<u8>)>::empty());
        assert(r@ =~= endpoint@ + seq![63u8] + encoded_query(pairs_view(params@).take(0int)));
    }
    for i in 0..n
        invariant
            n == params@.len(),
            r@ =~= endpoint@ + seq![63u8] + encoded_query(pairs_view(params@).take(i as int)),
    {
        proof {
            let pv = pairs_view(params@);
            lemma_encoded_query_push(pv.take(i as int), params@[i as int].0@, params@[i as int].1@);
            assert(pv.take(i + 1) =~~= pv.take(i as int).push(
                (params@[i as int].0@, params@[i as int].1@),
            ));
        }
        if i > 0 {
            r.push(38u8);
        }
        let mut ek = pct_encode(params[i].0.as_slice());
        r.append(&mut ek);
        r.push(61u8);
        let mut ev = pct_encode(params[i].1.as_slice());
        r.append(&mut ev);
        proof {
            assert(r@ =~= endpoint@ + seq![63u8] + encoded_query(
                pairs_view(params@).take(i + 1),
            ));
        }
    }
    proof {
        assert(pairs_view(params@).take(n as int) =~~= pairs_view(params@));
    }
    r
}

/// The provider's fixed discovery document location.
pub open spec fn oidc_discovery_url() -> Seq<u8> {
    "https://account.jagex.com/.well-known/openid-configuration".spec_bytes()
}

pub fn oidc_discovery_url_bytes() -> (r: Vec<u8>)
    ensures
        r@ == oidc_discovery_url(),
{
    str_bytes("https://account.jagex.com/.well-known/openid-configuration")
}

/// The launcher's client id at the identity provider.
pub open spec fn auth_code_client_id() -> Seq<u8> {
    "com_jagex_auth_desktop_launcher".spec_bytes()
}

/// The registered redirect URI of the primary authorization flow.
pub open spec fn auth_code_redirect_uri() -> Seq<u8> {
    "https://secure.runescape.com/m=weblogin/launcher-redirect".spec_bytes()
}

pub fn auth_code_redirect_uri_bytes() -> (r: Vec<u8>)
    ensures
        r@ == auth_code_redirect_uri(),
{
    str_bytes("https://secure.runescape.com/m=weblogin/launcher-redirect")
}

/// The scopes the primary authorization flow requests.
pub open spec fn auth_code_scope() -> Seq<u8> {
    "openid offline gamesso.token.create user.profile.read user.entitlement.read user.game.read user.sku.read user.voucher.redeem".spec_bytes()
}

/// The query parameters of the primary authorization request.
pub open spec fn auth_request_params(state: Seq<u8>, nonce: Seq<u8>, challenge: Seq<u8>) -> Seq<
    (Seq<u8>, Seq<u8>),
> {
    seq![
        ("response_type".spec_bytes(), "code".spec_bytes()),
        ("client_id".spec_bytes(), auth_code_client_id()),
        ("state".spec_bytes(), state),
        ("code_challenge".spec_bytes(), challenge),
        ("code_challenge_method".spec_bytes(), "S256".spec_bytes()),
        ("redirect_uri".spec_bytes(), auth_code_redirect_uri()),
        ("nonce".spec_bytes(), nonce),
        ("scope".spec_bytes(), auth_code_scope()),
    ]
}

/// Everything one login attempt needs: the provider endpoints, the
/// authorization URL, the PKCE pair, the CSRF token and the nonce.
/// Verifier and CSRF token are generated together by `begin_login` and must
/// never be reused across attempts.
#[derive(Debug, Clone)]
pub struct AuthFlow {
    pub auth_endpoint: Vec<u8>,
    pub token_endpoint: Vec<u8>,
    pub authorization_request_url: Vec<u8>,
    pub challenge: Vec<u8>,
    pub verifier: Vec<u8>,
    pub csrf_token: Vec<u8>,
    pub nonce: Vec<u8>,
}

impl AuthFlow {
    /// The challenge is the one derived from the verifier, and the
    /// authorization URL embeds exactly this flow's material.
    pub open spec fn wf(self) -> bool {
        &&& self.challenge@ == pkce_challenge_of(self.verifier@)
        &&& self.authorization_request_url@ == url_with_query(
            self.auth_endpoint@,
            auth_request_params(self.csrf_token@, self.nonce@, self.challenge@),
        )
    }
}

/// Begins a login attempt from the provider's discovery document: reads the
/// two endpoints, draws fresh PKCE material, CSRF token and nonce, and
/// assembles the authorization URL.
pub fn begin_login(discovery_body: &[u8]) -> (r: Result<AuthFlow, Error>)
    ensures
        match r {
            Ok(f) => {
                &&& json_str_field_of(discovery_body@, "authorization_endpoint"@) == Some(
                    f.auth_endpoint@,
                )
                &&& json_str_field_of(discovery_body@, "token_endpoint"@) == Some(
                    f.token_endpoint@,
                )
                &&& f.wf()
            },
            Err(e) => {
                &&& e is MalformedResponse
                &&& (json_str_field_of(discovery_body@, "authorization_endpoint"@) is None
                    || json_str_field_of(discovery_body@, "token_endpoint"@) is None)
            },
        },
{
    let auth_ep = match json_str_field(discovery_body, "authorization_endpoint") {
        Some(v) => v,
        None => {
            return Err(Error::MalformedResponse);
        },
    };
    let token_ep = match json_str_field(discovery_body, "token_endpoint") {
        Some(v) => v,
        None => {
            return Err(Error::MalformedResponse);
        },
    };
    let pair = new_pkce_pair();
    let verifier = pair.0;
    let challenge = pair.1;
    let csrf_token = new_csrf_token();
    let nonce = new_nonce();

    let mut params: Vec<(Vec<u8>, Vec<u8>)> = Vec::new();
    params.push((str_bytes("response_type"), str_bytes("code")));
    params.push((str_bytes("client_id"), str_bytes("com_jagex_auth_desktop_launcher")));
    params.push((str_bytes("state"), slice_to_vec(csrf_token.as_slice())));
    params.push((str_bytes("code_challenge"), slice_to_vec(challenge.as_slice())));
    params.push((str_bytes("code_challenge_method"), str_bytes("S256")));
    params.push(
        (
            str_bytes("redirect_uri"),
            str_bytes("https://secure.runescape.com/m=weblogin/launcher-redirect"),
        ),
    );
    params.push((str_bytes("nonce"), slice_to_vec(nonce.as_slice())));
    params.push(
        (
            str_bytes("scope"),
            str_bytes(
                "openid offline gamesso.token.create user.profile.read user.entitlement.read user.game.read user.sku.read user.voucher.redeem",
            ),
        ),
    );
    proof {
        assert(pairs_view(params@) =~~= auth_request_params(csrf_token@, nonce@, challenge@));
    }
    let url = build_url(auth_ep.as_slice(), &params);
    Ok(
        AuthFlow {
            auth_endpoint: auth_ep,
            token_endpoint: token_ep,
            authorization_request_url: url,
            challenge,
            verifier,
            csrf_token,
            nonce,
        },
    )
}

} // verus!
