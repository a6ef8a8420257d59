use sms_client::account::Account;
use sms_client::address::Address;
use sms_client::error::ErrorCode;
use sms_client::request::{classify_outcome, compose_request, compose_url, TransportOutcome};
use sms_client::rest_api::{PlatformID, PlatformPartnerID, SMS};

fn account(base_url: &str) -> Account {
    Account::new("user".to_string(), "secret".to_string(), base_url.to_string())
}

fn message() -> SMS {
    SMS::with_text(
        Address::new("src".to_string()),
        Address::new("dst".to_string()),
        PlatformID::new("pid".to_string()),
        PlatformPartnerID::new("ppid".to_string()),
        "hi".to_string(),
    )
}

#[test]
fn base_url_path_is_replaced_not_appended() {
    let acc = account("https://example.test/ignored/path");
    let url = compose_url(&acc, "send").unwrap();
    assert_eq!(url, "https://example.test/sms/send");
}

#[test]
fn base_url_without_path_gets_the_fixed_path() {
    let acc = account("https://example.test");
    let url = compose_url(&acc, "send").unwrap();
    assert_eq!(url, "https://example.test/sms/send");
}

#[test]
fn unparseable_base_url_is_a_parse_error_before_any_call() {
    let acc = account("");
    let err = compose_url(&acc, "send").unwrap_err();
    assert_eq!(err.code(), ErrorCode::Parse);
    assert!(err.msg().is_some());
    assert!(err.msg().unwrap().starts_with("unable to parse base base url: "));
}

#[test]
fn compose_request_attaches_credentials_and_content_type() {
    let acc = account("https://example.test/x");
    let req = compose_request(&acc, "send", "{}".to_string()).unwrap();
    assert_eq!(req.method, "POST");
    assert_eq!(req.url, "https://example.test/sms/send");
    assert_eq!(req.username, "user");
    assert_eq!(req.password, "secret");
    assert_eq!(req.content_type, "application/json");
    assert_eq!(req.body, "{}");
}

#[test]
fn send_request_carries_the_serialized_message() {
    let sms = message();
    let acc = account("https://example.test/ignored");
    let req = sms.send_request(&acc).unwrap();
    assert_eq!(req.method, "POST");
    assert_eq!(req.url, "https://example.test/sms/send");
    assert_eq!(req.username, "user");
    assert_eq!(req.password, "secret");
    assert_eq!(req.content_type, "application/json");
    assert_eq!(req.body, sms.to_wire_json());
}

#[test]
fn send_request_fails_like_compose_on_a_bad_base_url() {
    let sms = message();
    let acc = account("not a url");
    let err = sms.send_request(&acc).unwrap_err();
    assert_eq!(err.code(), ErrorCode::Parse);
}

#[test]
fn status_200_is_a_success_wrapping_the_response() {
    let r = classify_outcome(TransportOutcome::Completed {
        status: 200,
        body: Some("ack".to_string()),
    })
    .unwrap();
    assert_eq!(r.status, 200);
    assert_eq!(r.body, Some("ack".to_string()));
}

#[test]
fn any_2xx_status_is_a_success() {
    let r = classify_outcome(TransportOutcome::Completed { status: 204, body: None }).unwrap();
    assert_eq!(r.status, 204);
    assert_eq!(r.body, None);
}

#[test]
fn status_401_is_access_denied_with_no_detail() {
    let err = classify_outcome(TransportOutcome::Completed {
        status: 401,
        body: Some("ignored".to_string()),
    })
    .unwrap_err();
    assert_eq!(err.code(), ErrorCode::AccessDenied);
    assert!(err.msg().is_none());
}

#[test]
fn status_500_with_body_is_a_parse_error_with_the_body_as_detail() {
    let err = classify_outcome(TransportOutcome::Completed {
        status: 500,
        body: Some("boom".to_string()),
    })
    .unwrap_err();
    assert_eq!(err.code(), ErrorCode::Parse);
    assert_eq!(err.msg().unwrap(), "boom");
}

#[test]
fn non_2xx_without_readable_body_uses_the_fallback_detail() {
    let err = classify_outcome(TransportOutcome::Completed { status: 404, body: None })
        .unwrap_err();
    assert_eq!(err.code(), ErrorCode::Parse);
    assert_eq!(err.msg().unwrap(), "no text body");
}

#[test]
fn transport_failure_is_other_with_the_transport_message() {
    let err = classify_outcome(TransportOutcome::Failed {
        message: "dns error".to_string(),
    })
    .unwrap_err();
    assert_eq!(err.code(), ErrorCode::Other);
    assert_eq!(err.msg().unwrap(), "dns error");
}

#[test]
fn account_getters_return_what_was_stored() {
    let acc = account("https://h");
    assert_eq!(acc.username(), "user");
    assert_eq!(acc.password(), "secret");
    assert_eq!(acc.base_url(), "https://h");
}

#[test]
fn auth_getters_return_what_was_stored() {
    let auth = sms_client::auth::Auth::new("u".to_string(), "p".to_string());
    assert_eq!(auth.username(), "u");
    assert_eq!(auth.password(), "p");
}

#[test]
fn oversized_components_are_refused_before_the_url_crate_runs() {
    let acc = account("https://example.test");
    let long_endpoint = "x".repeat(1 << 27);
    let err = compose_url(&acc, &long_endpoint).unwrap_err();
    assert_eq!(err.code(), ErrorCode::Parse);
    assert_eq!(
        err.msg().unwrap(),
        "unable to compose the request url: base url or endpoint too long"
    );
    let long_base = account(&"y".repeat(1 << 27));
    let err = compose_url(&long_base, "send").unwrap_err();
    assert_eq!(err.code(), ErrorCode::Parse);
    assert_eq!(
        err.msg().unwrap(),
        "unable to compose the request url: base url or endpoint too long"
    );
}
