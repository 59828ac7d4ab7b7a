use yeet::github::{
    no_release, poll_decision, poll_response, poll_when_not_polling, release_update_info,
    token_from_file, update_info_from_release, user_lookup_step, PollingState, UserLookup,
};

#[test]
fn polling_state_transitions() {
    let mut s = PollingState::new();
    assert!(!s.is_polling());
    s.start();
    assert!(s.is_polling());
    s.cancel();
    assert!(!s.is_polling());
}

#[test]
fn poll_without_flow_is_an_error() {
    let r = poll_when_not_polling();
    assert_eq!(r.status, "error");
    assert_eq!(r.token, None);
    assert_eq!(r.message.as_deref(), Some("not polling"));
}

#[test]
fn poll_success_stops_polling() {
    let mut s = PollingState::new();
    s.start();
    let r = poll_response(&mut s, br#"{"access_token":"gho_abc","token_type":"bearer"}"#).unwrap();
    assert_eq!(r.status, "success");
    assert_eq!(r.token.as_deref(), Some("gho_abc"));
    assert_eq!(r.message, None);
    assert!(!s.is_polling());
}

#[test]
fn poll_pending_keeps_polling() {
    for code in ["authorization_pending", "slow_down"] {
        let mut s = PollingState::new();
        s.start();
        let body = format!(r#"{{"error":"{}"}}"#, code);
        let r = poll_response(&mut s, body.as_bytes()).unwrap();
        assert_eq!(r.status, "pending");
        assert!(s.is_polling());
    }
}

#[test]
fn poll_expired_and_other_errors_stop_polling() {
    let mut s = PollingState::new();
    s.start();
    let r = poll_response(&mut s, br#"{"error":"expired_token"}"#).unwrap();
    assert_eq!(r.status, "expired");
    assert!(!s.is_polling());

    let mut s = PollingState::new();
    s.start();
    let r = poll_response(&mut s, br#"{"error":"access_denied"}"#).unwrap();
    assert_eq!(r.status, "error");
    assert_eq!(r.message.as_deref(), Some("access_denied"));
    assert!(!s.is_polling());

    let mut s = PollingState::new();
    s.start();
    let r = poll_response(&mut s, br#"{"access_token": 5}"#).unwrap();
    assert_eq!(r.status, "error");
    assert_eq!(r.message.as_deref(), Some("unknown"));
}

#[test]
fn poll_of_non_json_is_a_decode_error() {
    let mut s = PollingState::new();
    s.start();
    let r = poll_response(&mut s, b"<html>");
    assert_eq!(
        r.err().as_deref(),
        Some("failed to parse response: error decoding response body")
    );
    assert!(s.is_polling());
}

#[test]
fn poll_decision_directly() {
    let mut s = PollingState::new();
    let r = poll_decision(&mut s, None, None);
    assert_eq!(r.status, "error");
    assert_eq!(r.message.as_deref(), Some("unknown"));
}

#[test]
fn token_file_contents() {
    assert_eq!(token_from_file("  gho_x \n").as_deref(), Some("gho_x"));
    assert_eq!(token_from_file(" \n\t"), None);
    assert_eq!(token_from_file(""), None);
}

#[test]
fn update_available_when_release_is_newer() {
    let u = update_info_from_release(
        "0.1.0".to_string(),
        br#"{"tag_name":"v0.2.0","body":"notes"}"#,
    )
    .unwrap();
    assert!(u.available);
    assert_eq!(u.current_version, "0.1.0");
    assert_eq!(u.latest_version.as_deref(), Some("0.2.0"));
    assert_eq!(u.release_notes.as_deref(), Some("notes"));
}

#[test]
fn no_update_for_same_or_older_release() {
    let u = update_info_from_release("0.2.0".to_string(), br#"{"tag_name":"v0.2.0"}"#).unwrap();
    assert!(!u.available);
    assert_eq!(u.release_notes, None);
    let u = update_info_from_release("1.0.0".to_string(), br#"{}"#).unwrap();
    assert!(!u.available);
    assert_eq!(u.latest_version.as_deref(), Some("0.0.0"));
}

#[test]
fn update_check_of_non_json_is_a_decode_error() {
    let r = update_info_from_release("1.0.0".to_string(), b"not json");
    assert_eq!(r.err().as_deref(), Some("error decoding response body"));
}

#[test]
fn missing_release_means_no_update() {
    let u = no_release("1.2.3".to_string());
    assert!(!u.available);
    assert_eq!(u.current_version, "1.2.3");
    assert_eq!(u.latest_version, None);
    let u = release_update_info("1.0.0".to_string(), Some("vv1.0.1".to_string()), None);
    assert!(u.available);
}

#[test]
fn poll_start_without_flow_answers_without_request() {
    let s = PollingState::new();
    let r = yeet::github::start_poll(&s).expect("an answer without a request");
    assert_eq!(r.status, "error");
    assert_eq!(r.token, None);
    assert_eq!(r.message.as_deref(), Some("not polling"));
    assert!(!s.is_polling());
}

#[test]
fn poll_start_during_flow_sends_request() {
    let mut s = PollingState::new();
    s.start();
    assert!(yeet::github::start_poll(&s).is_none());
    let _ = poll_response(&mut s, br#"{"error":"expired_token"}"#).unwrap();
    assert!(yeet::github::start_poll(&s).is_some());
}

#[test]
fn user_lookup_follows_the_status() {
    assert_eq!(user_lookup_step(200), UserLookup::ReadUser);
    assert_eq!(user_lookup_step(204), UserLookup::ReadUser);
    assert_eq!(user_lookup_step(299), UserLookup::ReadUser);
    assert_eq!(user_lookup_step(401), UserLookup::ForgetToken);
    assert_eq!(user_lookup_step(404), UserLookup::Fail);
    assert_eq!(user_lookup_step(500), UserLookup::Fail);
    assert_eq!(user_lookup_step(199), UserLookup::Fail);
}
