use substuff::oauth::classify_token_response;
use substuff::{GitHubConfig, GithubDeviceCodeResponse, HttpOutcome, OAuthError, Poller, PollSignal, PollerState};

fn config(expires_in: u32, interval: u32) -> GitHubConfig {
    GitHubConfig::new(GithubDeviceCodeResponse {
        device_code: "D1".to_string(),
        user_code: "U1".to_string(),
        verification_uri: "https://github.com/login/device".to_string(),
        expires_in,
        interval,
    })
}

#[test]
fn poller_starts_polling() {
    let p = Poller::new(&config(900, 5));
    assert!(!p.is_terminal());
    assert_eq!(p.current_interval(), 5);
}

#[test]
fn poller_interval_is_at_least_five_even_for_tiny_responses() {
    let p = Poller::new(&config(900, 1));
    assert!(p.current_interval() >= 5);
    assert_eq!(p.current_interval(), 5);
}

#[test]
fn pending_keeps_polling_at_the_same_pace() {
    let mut p = Poller::new(&config(900, 5));
    p.step(PollSignal::Pending);
    assert!(!p.is_terminal());
    assert_eq!(p.current_interval(), 5);
}

#[test]
fn slow_down_raises_the_pace_for_all_later_cycles() {
    let mut p = Poller::new(&config(900, 5));
    p.step(PollSignal::SlowDown);
    assert!(!p.is_terminal());
    assert_eq!(p.current_interval(), 10);
    p.step(PollSignal::Pending);
    assert_eq!(p.current_interval(), 10);
    p.step(PollSignal::SlowDown);
    assert_eq!(p.current_interval(), 15);
}

#[test]
fn token_ends_the_attempt() {
    let mut p = Poller::new(&config(900, 5));
    p.step(PollSignal::Token("tok_abc".to_string()));
    assert!(p.is_terminal());
    match &p.state {
        PollerState::Succeeded(t) => assert_eq!(t, "tok_abc"),
        other => panic!("expected success, got {:?}", other),
    }
}

#[test]
fn expired_signal_ends_the_attempt() {
    let mut p = Poller::new(&config(900, 5));
    p.step(PollSignal::Expired);
    assert!(p.is_terminal());
    assert!(matches!(p.state, PollerState::Expired));
}

#[test]
fn fatal_signal_ends_the_attempt() {
    let mut p = Poller::new(&config(900, 5));
    p.step(PollSignal::Fatal(OAuthError::AccessDenied));
    assert!(p.is_terminal());
    assert!(matches!(p.state, PollerState::Fatal(OAuthError::AccessDenied)));
}

#[test]
fn elapsed_deadline_forces_expired() {
    let mut p = Poller::new(&config(900, 5));
    assert!(!p.deadline_reached(899));
    assert!(p.deadline_reached(900));
    assert!(p.deadline_reached(901));
    p.expire();
    assert!(p.is_terminal());
    assert!(matches!(p.state, PollerState::Expired));
}

#[test]
fn one_call_handles_a_whole_cycle() {
    let mut p = Poller::new(&config(900, 5));
    p.handle_cycle_response(HttpOutcome::Response {
        status: 200,
        body: "{\"error\":\"slow_down\"}".to_string(),
    });
    assert!(!p.is_terminal());
    assert_eq!(p.current_interval(), 10);
    p.handle_cycle_response(HttpOutcome::Response {
        status: 200,
        body: "{\"access_token\":\"tok_xyz\"}".to_string(),
    });
    match &p.state {
        PollerState::Succeeded(t) => assert_eq!(t, "tok_xyz"),
        other => panic!("expected success, got {:?}", other),
    }
}

#[test]
fn pending_then_token_scenario() {
    let device = HttpOutcome::Response {
        status: 200,
        body: "{\"device_code\":\"D1\",\"user_code\":\"U1\",\"verification_uri\":\"https://github.com/login/device\",\"expires_in\":900,\"interval\":5}"
            .to_string(),
    };
    let context = substuff::device::handle_device_code_response(device).unwrap();
    assert_eq!(context.device_code, "D1");
    assert_eq!(context.user_code, "U1");
    assert_eq!(context.verification_uri, "https://github.com/login/device");

    let mut p = Poller::new(&GitHubConfig::new(context));
    let first = classify_token_response(HttpOutcome::Response {
        status: 200,
        body: "{\"error\":\"authorization_pending\"}".to_string(),
    });
    assert!(matches!(first, PollSignal::Pending));
    p.step(first);
    assert!(!p.is_terminal());
    assert_eq!(p.current_interval(), 5);

    let second = classify_token_response(HttpOutcome::Response {
        status: 200,
        body: "{\"access_token\":\"tok_abc\"}".to_string(),
    });
    p.step(second);
    match &p.state {
        PollerState::Succeeded(t) => assert_eq!(t, "tok_abc"),
        other => panic!("expected success, got {:?}", other),
    }
}
