use sms_client::error::{Error, ErrorCode};

#[test]
fn error_with_detail_renders_kind_colon_detail() {
    let err = Error::new(ErrorCode::Other, Some("timeout".to_string()));
    assert_eq!(err.display_string(), "other: timeout");
}

#[test]
fn error_without_detail_renders_the_kind_alone() {
    let err = Error::with_code(ErrorCode::AccessDenied);
    assert_eq!(err.display_string(), "access denied");
}

#[test]
fn every_error_kind_has_its_fixed_display_text() {
    let cases: Vec<(ErrorCode, &str)> = vec![
        (ErrorCode::InvalidAuth, "invalid auth"),
        (ErrorCode::AccessDenied, "access denied"),
        (ErrorCode::Unknown, "unknown"),
        (ErrorCode::Parse, "parse"),
        (ErrorCode::SMSCCredentials, "sms credentials"),
        (ErrorCode::InvOrMissingPlatformID, "invalid or missing platform"),
        (ErrorCode::InvOrMissingPlatformPartnerID, "invalid or missing platform partner id"),
        (ErrorCode::InvOrMissingCurrencyForPremium, "invalid or missing currenct for premium"),
        (ErrorCode::NoGatesAvail, "no gates available"),
        (ErrorCode::SpecifiedGateUnavail, "specified gate unavailable"),
        (ErrorCode::Other, "other"),
    ];
    for (code, text) in cases {
        assert_eq!(Error::with_code(code).display_string(), text);
        let with_detail = Error::new(code, Some("d".to_string()));
        let mut expected = text.to_string();
        expected.push_str(": d");
        assert_eq!(with_detail.display_string(), expected);
    }
}

#[test]
fn accessors_expose_code_and_detail() {
    let err = Error::new(ErrorCode::Parse, Some("bad".to_string()));
    assert_eq!(err.code(), ErrorCode::Parse);
    assert_eq!(err.msg().unwrap(), "bad");
    let bare = Error::with_code(ErrorCode::Unknown);
    assert_eq!(bare.code(), ErrorCode::Unknown);
    assert!(bare.msg().is_none());
}
