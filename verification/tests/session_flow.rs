use launcher_auth::session::{
    begin_session, session_request_url, session_id_token, session_issuance_body, game_session,
};
use launcher_auth::query::parse_params;
use launcher_auth::error::Error;

#[test]
fn session_url_is_the_expected_hybrid_request() {
    let url = session_request_url(b"https://account.jagex.com/oauth2/auth", b"ST", b"NC", b"HINT");
    assert_eq!(
        String::from_utf8(url).unwrap(),
        "https://account.jagex.com/oauth2/auth?response_type=code%20id_token&client_id=1fddee4e-b100-4f4e-b2b0-097f9088f9d2&state=ST&redirect_uri=http%3A%2F%2Flocalhost&nonce=NC&scope=openid%20offline&id_token_hint=HINT"
    );
}

#[test]
fn session_id_token_comes_from_the_fragment() {
    let ps = parse_params(b"id_token=XYZ&code=DEF&state=S2");
    assert_eq!(session_id_token(&ps).unwrap(), b"XYZ".to_vec());
    let empty = parse_params(b"code=DEF");
    assert!(matches!(session_id_token(&empty), Err(Error::MissingRedirectParam)));
}

#[test]
fn begin_session_draws_fresh_state_and_nonce() {
    let a = begin_session(b"https://account.jagex.com/oauth2/auth", b"HINT");
    let b = begin_session(b"https://account.jagex.com/oauth2/auth", b"HINT");
    assert_ne!(a.state, b.state);
    assert_ne!(a.nonce, b.nonce);
    let url = String::from_utf8(a.request_url).unwrap();
    assert!(url.contains(&format!("&state={}&", String::from_utf8(a.state).unwrap())));
    assert!(url.contains(&format!("&nonce={}&", String::from_utf8(a.nonce).unwrap())));
    assert!(url.ends_with("&id_token_hint=HINT"));
}

#[test]
fn issuance_body_wraps_the_token() {
    assert_eq!(
        session_issuance_body(b"XYZ").unwrap(),
        br#"{"idToken":"XYZ"}"#.to_vec()
    );
    assert_eq!(
        session_issuance_body(b"hd.pl.sg").unwrap(),
        br#"{"idToken":"hd.pl.sg"}"#.to_vec()
    );
}

#[test]
fn issuance_body_rejects_tokens_outside_the_jwt_alphabet() {
    assert!(matches!(
        session_issuance_body(br#"XY"}{"admin":true"#),
        Err(Error::InvalidJwt)
    ));
    assert!(matches!(session_issuance_body(b"a\\b"), Err(Error::InvalidJwt)));
}

#[test]
fn game_session_assembles_all_four_fields() {
    let ps = parse_params(b"id_token=XYZ&code=DEF&state=S2");
    let s = game_session(&ps, 200, br#"{"sessionId":"S1"}"#).unwrap();
    assert_eq!(s.code, b"DEF".to_vec());
    assert_eq!(s.state, b"S2".to_vec());
    assert_eq!(s.id_token, b"XYZ".to_vec());
    assert_eq!(s.session_id, b"S1".to_vec());
}

#[test]
fn game_session_requires_the_fragment_parameters() {
    let ps = parse_params(b"id_token=XYZ&state=S2");
    assert!(matches!(
        game_session(&ps, 200, br#"{"sessionId":"S1"}"#),
        Err(Error::MissingRedirectParam)
    ));
}

#[test]
fn game_session_surfaces_issuance_errors() {
    let ps = parse_params(b"id_token=XYZ&code=DEF&state=S2");
    match game_session(&ps, 403, br#"{"error":"forbidden","error_description":"no"}"#) {
        Err(Error::Auth { code, description }) => {
            assert_eq!(code, b"forbidden".to_vec());
            assert_eq!(description, b"no".to_vec());
        },
        other => panic!("expected Auth error, got {:?}", other),
    }
    assert!(matches!(
        game_session(&ps, 200, br#"{"unexpected":true}"#),
        Err(Error::MalformedResponse)
    ));
}
