use substuff::{AuthError, GithubDeviceCodeResponse, Notification, SessionState};

fn context() -> GithubDeviceCodeResponse {
    GithubDeviceCodeResponse {
        device_code: "D1".to_string(),
        user_code: "U1".to_string(),
        verification_uri: "https://github.com/login/device".to_string(),
        expires_in: 900,
        interval: 5,
    }
}

#[test]
fn fresh_session_is_not_authenticated() {
    let s = SessionState::new();
    assert!(!s.pending_ready());
    assert!(matches!(s.current_token(), Err(AuthError::NotAuthenticated)));
}

#[test]
fn begin_stores_the_context_and_announces_it() {
    let mut s = SessionState::new();
    let n = s.begin_authorization(context());
    match n {
        Notification::Started { verification_uri, user_code } => {
            assert_eq!(verification_uri, "https://github.com/login/device");
            assert_eq!(user_code, "U1");
        }
        other => panic!("expected a started notification, got {:?}", other),
    }
    assert!(s.pending_ready());
    assert!(s.is_current(&"D1".to_string()));
    assert!(!s.is_current(&"D2".to_string()));
}

#[test]
fn begin_replaces_a_prior_context() {
    let mut s = SessionState::new();
    s.begin_authorization(context());
    let mut second = context();
    second.device_code = "D2".to_string();
    s.begin_authorization(second);
    assert!(!s.is_current(&"D1".to_string()));
    assert!(s.is_current(&"D2".to_string()));
}

#[test]
fn success_stores_the_token_and_clears_the_context() {
    let mut s = SessionState::new();
    s.begin_authorization(context());
    let n = s.complete_success("tok_abc".to_string());
    match n {
        Notification::Responded { token } => assert_eq!(token, "tok_abc"),
        other => panic!("expected a responded notification, got {:?}", other),
    }
    assert!(!s.pending_ready());
    assert_eq!(s.current_token().unwrap(), "tok_abc");
}

#[test]
fn failure_clears_the_context_and_responds_empty() {
    let mut s = SessionState::new();
    s.begin_authorization(context());
    let n = s.complete_failure();
    match n {
        Notification::Responded { token } => assert_eq!(token, ""),
        other => panic!("expected a responded notification, got {:?}", other),
    }
    assert!(!s.pending_ready());
    assert!(matches!(s.current_token(), Err(AuthError::NotAuthenticated)));
}

#[test]
fn empty_device_code_is_not_ready() {
    let mut s = SessionState::new();
    let mut c = context();
    c.device_code = String::new();
    s.begin_authorization(c);
    assert!(!s.pending_ready());
}

#[test]
fn duplicate_copies_every_field() {
    let c = context();
    let d = c.duplicate();
    assert_eq!(d.device_code, c.device_code);
    assert_eq!(d.user_code, c.user_code);
    assert_eq!(d.verification_uri, c.verification_uri);
    assert_eq!(d.expires_in, c.expires_in);
    assert_eq!(d.interval, c.interval);
}
