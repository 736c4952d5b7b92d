use launcher_auth::flow::begin_login;
use launcher_auth::error::Error;

const DISCOVERY: &[u8] = br#"{"authorization_endpoint":"https://account.jagex.com/oauth2/auth","token_endpoint":"https://account.jagex.com/oauth2/token"}"#;

#[test]
fn begin_login_reads_both_endpoints() {
    let flow = begin_login(DISCOVERY).unwrap();
    assert_eq!(flow.auth_endpoint, b"https://account.jagex.com/oauth2/auth".to_vec());
    assert_eq!(flow.token_endpoint, b"https://account.jagex.com/oauth2/token".to_vec());
}

#[test]
fn begin_login_embeds_fresh_material_in_the_url() {
    let flow = begin_login(DISCOVERY).unwrap();
    assert_eq!(flow.verifier.len(), 43);
    assert!(!flow.csrf_token.is_empty());
    assert!(!flow.nonce.is_empty());
    assert_ne!(flow.challenge, flow.verifier);
    let url = String::from_utf8(flow.authorization_request_url.clone()).unwrap();
    let state = String::from_utf8(flow.csrf_token.clone()).unwrap();
    let nonce = String::from_utf8(flow.nonce.clone()).unwrap();
    let challenge = String::from_utf8(flow.challenge.clone()).unwrap();
    assert!(url.starts_with("https://account.jagex.com/oauth2/auth?response_type=code&client_id=com_jagex_auth_desktop_launcher&state="));
    assert!(url.contains(&format!("&state={}&", state)));
    assert!(url.contains(&format!("&code_challenge={}&", challenge)));
    assert!(url.contains("&code_challenge_method=S256&"));
    assert!(url.contains(
        "&redirect_uri=https%3A%2F%2Fsecure.runescape.com%2Fm%3Dweblogin%2Flauncher-redirect&"
    ));
    assert!(url.contains(&format!("&nonce={}&", nonce)));
    assert!(url.ends_with("&scope=openid%20offline%20gamesso.token.create%20user.profile.read%20user.entitlement.read%20user.game.read%20user.sku.read%20user.voucher.redeem"));
}

#[test]
fn two_attempts_never_share_material() {
    let a = begin_login(DISCOVERY).unwrap();
    let b = begin_login(DISCOVERY).unwrap();
    assert_ne!(a.verifier, b.verifier);
    assert_ne!(a.csrf_token, b.csrf_token);
    assert_ne!(a.nonce, b.nonce);
}

#[test]
fn begin_login_rejects_discovery_without_endpoints() {
    assert!(matches!(
        begin_login(br#"{"token_endpoint":"https://x/t"}"#),
        Err(Error::MalformedResponse)
    ));
    assert!(matches!(begin_login(b"not json"), Err(Error::MalformedResponse)));
}
