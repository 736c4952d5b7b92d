use launcher_auth::pipeline::{LoginStage, progress_signal, next_stage};
use launcher_auth::window_finder::{find_windows_by_class, find_jag_render_view};
use launcher_auth::error::Error;

#[test]
fn signals_come_in_the_fixed_order() {
    let mut stage = LoginStage::Authorizing;
    let mut seen = Vec::new();
    while stage != LoginStage::Complete {
        seen.push(progress_signal(&stage).to_string());
        stage = next_stage(&stage);
    }
    assert_eq!(
        seen,
        vec!["Authorizing...", "Getting Token...", "Getting Session...", "Getting Characters..."]
    );
    assert_eq!(next_stage(&LoginStage::Complete), LoginStage::Complete);
}

#[test]
fn error_messages_are_nonempty() {
    let errors = vec![
        Error::CsrfMismatch,
        Error::InvalidRedirectUrl(b"u".to_vec()),
        Error::Cancelled,
        Error::Auth { code: b"c".to_vec(), description: b"d".to_vec() },
        Error::MalformedResponse,
        Error::InvalidJwt,
        Error::MissingRedirectParam,
        Error::Network("refused".to_string()),
    ];
    for e in errors {
        assert!(!e.message().is_empty());
    }
}

#[test]
fn window_discovery_finds_nothing_without_a_native_api() {
    assert!(find_windows_by_class("JagRenderView").is_empty());
    assert!(find_jag_render_view().is_none());
}
