use launcher_auth::interceptor::Interceptor;
use launcher_auth::error::Error;

fn primary() -> Interceptor {
    Interceptor::new(
        b"https://secure.runescape.com/m=weblogin/launcher-redirect".to_vec(),
        false,
        true,
    )
}

#[test]
fn unrelated_navigation_proceeds() {
    let mut i = primary();
    assert!(i.on_navigation(b"https://account.jagex.com/login"));
    assert!(matches!(i.finish(), Err(Error::Cancelled)));
}

#[test]
fn matching_navigation_captures_code_and_state() {
    let mut i = primary();
    let proceed =
        i.on_navigation(b"https://secure.runescape.com/m=weblogin/launcher-redirect?code=ABC&state=S1");
    assert!(!proceed);
    let ps = i.finish().unwrap();
    assert_eq!(ps[0].0, b"code".to_vec());
    assert_eq!(ps[0].1, b"ABC".to_vec());
    assert_eq!(ps[1].1, b"S1".to_vec());
}

#[test]
fn matching_is_case_insensitive_on_prefix() {
    let mut i = primary();
    let proceed =
        i.on_navigation(b"HTTPS://SECURE.RUNESCAPE.COM/m=weblogin/launcher-redirect?code=C&state=S");
    assert!(!proceed);
    assert!(i.finish().is_ok());
}

#[test]
fn missing_code_or_state_fails_with_offending_url() {
    let url = b"https://secure.runescape.com/m=weblogin/launcher-redirect?state=only".to_vec();
    let mut i = primary();
    let proceed = i.on_navigation(&url);
    assert!(!proceed);
    match i.finish() {
        Err(Error::InvalidRedirectUrl(raw)) => assert_eq!(raw, url),
        other => panic!("expected InvalidRedirectUrl, got {:?}", other),
    }
}

#[test]
fn duplicate_delivery_records_exactly_one_completion() {
    let mut i = primary();
    let url = b"https://secure.runescape.com/m=weblogin/launcher-redirect?code=ABC&state=S1";
    assert!(!i.on_navigation(url));
    // The same logical event fires again: it is a no-op and proceeds.
    assert!(i.on_navigation(url));
    let ps = i.finish().unwrap();
    assert_eq!(ps.len(), 2);
    assert_eq!(ps[0].1, b"ABC".to_vec());
}

#[test]
fn later_navigation_cannot_overwrite_the_outcome() {
    let mut i = primary();
    assert!(!i.on_navigation(
        b"https://secure.runescape.com/m=weblogin/launcher-redirect?code=FIRST&state=S1"
    ));
    assert!(i.on_navigation(
        b"https://secure.runescape.com/m=weblogin/launcher-redirect?code=SECOND&state=S2"
    ));
    let ps = i.finish().unwrap();
    assert_eq!(ps[0].1, b"FIRST".to_vec());
}

#[test]
fn closing_without_matching_navigation_is_cancelled() {
    let i = primary();
    assert!(matches!(i.finish(), Err(Error::Cancelled)));
}

#[test]
fn fragment_interception_reads_the_fragment() {
    let mut i = Interceptor::new(b"http://localhost".to_vec(), true, false);
    let proceed = i.on_navigation(b"http://localhost/#id_token=XYZ&code=DEF&state=S2");
    assert!(!proceed);
    let ps = i.finish().unwrap();
    assert_eq!(ps[0].0, b"id_token".to_vec());
    assert_eq!(ps[0].1, b"XYZ".to_vec());
    assert_eq!(ps[1].1, b"DEF".to_vec());
}

#[test]
fn fragment_interception_without_requirements_captures_anything_matching() {
    let mut i = Interceptor::new(b"http://localhost".to_vec(), true, false);
    assert!(!i.on_navigation(b"http://localhost/"));
    let ps = i.finish().unwrap();
    assert!(ps.is_empty());
}
