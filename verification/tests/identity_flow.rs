use base64::Engine;
use launcher_auth::identity::{
    characters, decode_jwt_payload, id_token_claims, account_info, display_name_url,
    assemble_account,
};
use launcher_auth::error::Error;

fn jwt_with_payload(payload: &str) -> Vec<u8> {
    let header = base64::engine::general_purpose::URL_SAFE_NO_PAD.encode(br#"{"alg":"RS256"}"#);
    let body = base64::engine::general_purpose::URL_SAFE_NO_PAD.encode(payload.as_bytes());
    format!("{}.{}.signaturepart", header, body).into_bytes()
}

#[test]
fn characters_lists_entries_in_response_order() {
    let body = br#"[{"accountId":"A1","displayName":"Alpha","userHash":"H1"},{"accountId":"A2","displayName":"Beta","userHash":"H2"}]"#;
    let cs = characters(200, body).unwrap();
    assert_eq!(cs.len(), 2);
    assert_eq!(cs[0].account_id, b"A1".to_vec());
    assert_eq!(cs[0].display_name, b"Alpha".to_vec());
    assert_eq!(cs[0].user_hash, b"H1".to_vec());
    assert!(!cs[0].is_members);
    assert_eq!(cs[1].account_id, b"A2".to_vec());
    assert!(!cs[1].is_members);
}

#[test]
fn characters_surfaces_provider_errors() {
    match characters(401, br#"{"error":"unauthorized","error_description":"expired"}"#) {
        Err(Error::Auth { code, description }) => {
            assert_eq!(code, b"unauthorized".to_vec());
            assert_eq!(description, b"expired".to_vec());
        },
        other => panic!("expected Auth error, got {:?}", other),
    }
    assert!(matches!(characters(200, b"{}"), Err(Error::MalformedResponse)));
}

#[test]
fn jwt_payload_decodes_the_middle_part() {
    let token = jwt_with_payload(r#"{"sub":"S"}"#);
    assert_eq!(decode_jwt_payload(&token).unwrap(), br#"{"sub":"S"}"#.to_vec());
}

#[test]
fn jwt_without_three_parts_is_invalid() {
    assert!(matches!(decode_jwt_payload(b"onlyonepart"), Err(Error::InvalidJwt)));
    assert!(matches!(decode_jwt_payload(b"a.b"), Err(Error::InvalidJwt)));
    assert!(matches!(decode_jwt_payload(b"a.b.c.d"), Err(Error::InvalidJwt)));
}

#[test]
fn jwt_with_undecodable_payload_is_invalid() {
    assert!(matches!(decode_jwt_payload(b"head.!!!.sig"), Err(Error::InvalidJwt)));
}

#[test]
fn claims_yield_sub_and_nickname_when_nonce_matches() {
    let token = jwt_with_payload(r#"{"sub":"SUB1","nickname":"Bob","nonce":"N1"}"#);
    let (sub, nickname) = id_token_claims(&token, b"N1").unwrap();
    assert_eq!(sub, b"SUB1".to_vec());
    assert_eq!(nickname, b"Bob".to_vec());
}

#[test]
fn claims_with_wrong_nonce_are_rejected() {
    let token = jwt_with_payload(r#"{"sub":"SUB1","nickname":"Bob","nonce":"N1"}"#);
    assert!(matches!(id_token_claims(&token, b"OTHER"), Err(Error::InvalidJwt)));
}

#[test]
fn claims_with_missing_fields_are_malformed() {
    let token = jwt_with_payload(r#"{"sub":"SUB1","nonce":"N1"}"#);
    assert!(matches!(id_token_claims(&token, b"N1"), Err(Error::MalformedResponse)));
}

#[test]
fn account_info_reads_the_display_name_response() {
    let info = account_info(
        b"Bob".to_vec(),
        200,
        br#"{"displayName":"BobDisplay","id":"ID1","userId":"U1"}"#,
    )
    .unwrap();
    assert_eq!(info.nickname, b"Bob".to_vec());
    assert_eq!(info.display_name, b"BobDisplay".to_vec());
    assert_eq!(info.id, b"ID1".to_vec());
    assert_eq!(info.user_id, b"U1".to_vec());
    assert!(info.email.is_none());
}

#[test]
fn account_info_surfaces_provider_errors() {
    match account_info(b"Bob".to_vec(), 404, br#"{"error":"not_found"}"#) {
        Err(Error::Auth { code, description }) => {
            assert_eq!(code, b"not_found".to_vec());
            assert!(description.is_empty());
        },
        other => panic!("expected Auth error, got {:?}", other),
    }
    assert!(matches!(
        account_info(b"Bob".to_vec(), 200, b"{}"),
        Err(Error::MalformedResponse)
    ));
}

#[test]
fn display_name_url_embeds_the_subject() {
    assert_eq!(
        display_name_url(b"SUB1"),
        b"https://api.jagex.com/v1/users/SUB1/displayName".to_vec()
    );
}

#[test]
fn assembled_account_takes_nickname_and_display_name() {
    let info = account_info(
        b"Bob".to_vec(),
        200,
        br#"{"displayName":"BobDisplay","id":"ID1","userId":"U1"}"#,
    )
    .unwrap();
    let cs = characters(
        200,
        br#"[{"accountId":"A1","displayName":"Alpha","userHash":"H1"}]"#,
    )
    .unwrap();
    let account = assemble_account(info, cs);
    assert_eq!(account.email, b"Bob".to_vec());
    assert_eq!(account.account_name, b"BobDisplay".to_vec());
    assert_eq!(account.characters.len(), 1);
}
