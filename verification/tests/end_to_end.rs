//! The whole pipeline against mocked endpoints: discovery, the primary
//! redirect, token exchange, the hybrid redirect, session issuance,
//! character enumeration and identity resolution.

use base64::Engine;
use launcher_auth::flow::begin_login;
use launcher_auth::interceptor::Interceptor;
use launcher_auth::token::{token_request, oauth_token};
use launcher_auth::session::{begin_session, session_id_token, session_issuance_body, game_session};
use launcher_auth::query::{parse_params, find_param};
use launcher_auth::identity::{characters, id_token_claims, account_info, assemble_account};
use launcher_auth::pipeline::{LoginStage, progress_signal, next_stage};

#[test]
fn full_login_against_mocked_endpoints() {
    // Discovery succeeds.
    let flow = begin_login(
        br#"{"authorization_endpoint":"https://account.jagex.com/oauth2/auth","token_endpoint":"https://account.jagex.com/oauth2/token"}"#,
    )
    .unwrap();

    let mut stage = LoginStage::Authorizing;
    assert_eq!(progress_signal(&stage), "Authorizing...");

    // The authorization redirect delivers code and the matching state.
    let mut primary = Interceptor::new(
        b"https://secure.runescape.com/m=weblogin/launcher-redirect".to_vec(),
        false,
        true,
    );
    let csrf = String::from_utf8(flow.csrf_token.clone()).unwrap();
    let redirect = format!(
        "https://secure.runescape.com/m=weblogin/launcher-redirect?code=ABC&state={}",
        csrf
    );
    assert!(!primary.on_navigation(redirect.as_bytes()));
    let captured = primary.finish().unwrap();
    let code = find_param(&captured, b"code").unwrap();
    let state = find_param(&captured, b"state").unwrap();
    assert_eq!(code, b"ABC".to_vec());

    stage = next_stage(&stage);
    assert_eq!(progress_signal(&stage), "Getting Token...");

    // Token exchange returns a valid bundle.
    let form = token_request(&flow, &code, &state).unwrap();
    assert_eq!(form[3], (b"code".to_vec(), b"ABC".to_vec()));
    let nonce = String::from_utf8(flow.nonce.clone()).unwrap();
    let payload = format!(r#"{{"sub":"SUB1","nickname":"Bob","nonce":"{}"}}"#, nonce);
    let id_token = format!(
        "{}.{}.sig",
        base64::engine::general_purpose::URL_SAFE_NO_PAD.encode(br#"{"alg":"RS256"}"#),
        base64::engine::general_purpose::URL_SAFE_NO_PAD.encode(payload.as_bytes())
    );
    let token_body = format!(
        r#"{{"access_token":"AT","refresh_token":"RT","expires_in":3600,"id_token":"{}","scope":"openid","token_type":"Bearer"}}"#,
        id_token
    );
    let token = oauth_token(200, token_body.as_bytes()).unwrap();
    assert_eq!(token.access_token, b"AT".to_vec());

    stage = next_stage(&stage);
    assert_eq!(progress_signal(&stage), "Getting Session...");

    // The hidden surface loads a hybrid request with fresh material and
    // delivers its redirect fragment.
    let session_flow = begin_session(&flow.auth_endpoint, &token.id_token);
    assert_ne!(session_flow.state, flow.csrf_token);
    assert_ne!(session_flow.nonce, flow.nonce);
    let mut hidden = Interceptor::new(b"http://localhost".to_vec(), true, false);
    assert!(!hidden.on_navigation(b"http://localhost/#id_token=XYZ&code=DEF&state=S2"));
    let fragment = hidden.finish().unwrap();
    let hint = session_id_token(&fragment).unwrap();
    assert_eq!(hint, b"XYZ".to_vec());
    assert_eq!(session_issuance_body(&hint).unwrap(), br#"{"idToken":"XYZ"}"#.to_vec());

    // Session issuance returns the session id.
    let session = game_session(&fragment, 200, br#"{"sessionId":"S1"}"#).unwrap();
    assert_eq!(session.session_id, b"S1".to_vec());
    assert_eq!(session.code, b"DEF".to_vec());
    assert_eq!(session.state, b"S2".to_vec());
    assert_eq!(session.id_token, b"XYZ".to_vec());

    stage = next_stage(&stage);
    assert_eq!(progress_signal(&stage), "Getting Characters...");

    // One playable character comes back.
    let chars = characters(
        200,
        br#"[{"accountId":"A1","displayName":"Alpha","userHash":"H1"}]"#,
    )
    .unwrap();
    assert_eq!(chars.len(), 1);

    // The resolver decodes the claims and the canonical display name.
    let (sub, nickname) = id_token_claims(&token.id_token, &flow.nonce).unwrap();
    assert_eq!(sub, b"SUB1".to_vec());
    assert_eq!(nickname, b"Bob".to_vec());
    let info = account_info(
        nickname,
        200,
        br#"{"displayName":"BobDisplay","id":"ID1","userId":"U1"}"#,
    )
    .unwrap();

    let account = assemble_account(info, chars);
    assert_eq!(account.email, b"Bob".to_vec());
    assert_eq!(account.account_name, b"BobDisplay".to_vec());
    assert_eq!(account.characters.len(), 1);
    assert_eq!(account.characters[0].account_id, b"A1".to_vec());

    stage = next_stage(&stage);
    assert_eq!(stage, LoginStage::Complete);
    assert_eq!(progress_signal(&stage), "");
}
