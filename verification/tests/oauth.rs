use substuff::oauth::classify_token_response;
use substuff::{HttpOutcome, OAuthError, OAuthResponse, PollSignal};

fn response(status: u16, body: &str) -> HttpOutcome {
    HttpOutcome::Response { status, body: body.to_string() }
}

#[test]
fn token_body_yields_the_token() {
    let signal = classify_token_response(response(
        200,
        "{\"access_token\":\"tok_abc\",\"token_type\":\"bearer\",\"scope\":\"repo user\"}",
    ));
    match signal {
        PollSignal::Token(t) => assert_eq!(t, "tok_abc"),
        other => panic!("expected a token, got {:?}", other),
    }
}

#[test]
fn pending_body_yields_pending() {
    let signal = classify_token_response(response(200, "{\"error\":\"authorization_pending\"}"));
    assert!(matches!(signal, PollSignal::Pending));
}

#[test]
fn slow_down_body_yields_slow_down() {
    let signal = classify_token_response(response(200, "{\"error\":\"slow_down\"}"));
    assert!(matches!(signal, PollSignal::SlowDown));
}

#[test]
fn expired_token_body_yields_expired() {
    let signal = classify_token_response(response(200, "{\"error\":\"expired_token\"}"));
    assert!(matches!(signal, PollSignal::Expired));
}

#[test]
fn terminal_error_codes_are_fatal() {
    let cases: [(&str, fn(&OAuthError) -> bool); 5] = [
        ("unsupported_grant_type", |e| matches!(e, OAuthError::UnsupportedGrantType)),
        ("incorrect_client_credentials", |e| {
            matches!(e, OAuthError::IncorrectClientCredentials)
        }),
        ("incorrect_device_code", |e| matches!(e, OAuthError::IncorrectDeviceCode)),
        ("access_denied", |e| matches!(e, OAuthError::AccessDenied)),
        ("device_flow_disabled", |e| matches!(e, OAuthError::DeviceFlowDisabled)),
    ];
    for (code, expected) in cases {
        let body = format!("{{\"error\":\"{}\"}}", code);
        match classify_token_response(response(200, &body)) {
            PollSignal::Fatal(e) => assert!(expected(&e), "code {:?} gave {:?}", code, e),
            other => panic!("expected fatal for {:?}, got {:?}", code, other),
        }
    }
}

#[test]
fn unrecognized_code_is_fatal_unknown_with_description() {
    let signal = classify_token_response(response(
        200,
        "{\"error\":\"solar_flare\",\"error_description\":\"try later\"}",
    ));
    match signal {
        PollSignal::Fatal(OAuthError::Unknown(detail)) => {
            assert_eq!(detail, "solar_flare: try later");
        }
        other => panic!("expected an unknown fatal error, got {:?}", other),
    }
}

#[test]
fn unrecognized_code_without_description() {
    let signal = classify_token_response(response(200, "{\"error\":\"solar_flare\"}"));
    match signal {
        PollSignal::Fatal(OAuthError::Unknown(detail)) => assert_eq!(detail, "solar_flare: "),
        other => panic!("expected an unknown fatal error, got {:?}", other),
    }
}

#[test]
fn body_with_neither_token_nor_error_is_fatal() {
    let signal = classify_token_response(response(200, "{\"scope\":\"repo\"}"));
    match signal {
        PollSignal::Fatal(OAuthError::Unknown(detail)) => {
            assert_eq!(detail, "{\"scope\":\"repo\"}");
        }
        other => panic!("expected an unknown fatal error, got {:?}", other),
    }
}

#[test]
fn undecodable_body_is_fatal_with_raw_text() {
    let signal = classify_token_response(response(200, "halt and catch fire"));
    match signal {
        PollSignal::Fatal(OAuthError::Unknown(detail)) => {
            assert_eq!(detail, "halt and catch fire");
        }
        other => panic!("expected an unknown fatal error, got {:?}", other),
    }
}

#[test]
fn non_success_status_is_fatal_with_the_body() {
    let signal = classify_token_response(response(503, "unavailable"));
    match signal {
        PollSignal::Fatal(OAuthError::Unknown(detail)) => assert_eq!(detail, "unavailable"),
        other => panic!("expected an unknown fatal error, got {:?}", other),
    }
}

#[test]
fn transport_failure_is_fatal_with_the_detail() {
    let signal = classify_token_response(HttpOutcome::TransportFailure {
        detail: "connection reset".to_string(),
    });
    match signal {
        PollSignal::Fatal(OAuthError::Unknown(detail)) => assert_eq!(detail, "connection reset"),
        other => panic!("expected an unknown fatal error, got {:?}", other),
    }
}

#[test]
fn token_wins_over_error_field() {
    let fields = OAuthResponse {
        access_token: Some("tok_1".to_string()),
        token_type: None,
        scope: None,
        error: Some("slow_down".to_string()),
        error_description: None,
    };
    let signal = substuff::oauth::classify_fields(fields, String::new());
    match signal {
        PollSignal::Token(t) => assert_eq!(t, "tok_1"),
        other => panic!("expected a token, got {:?}", other),
    }
}
