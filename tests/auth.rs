use bounty::{AuthFailure, DeviceCode, Phase, TokenPoller, TokenReply};

fn error(code: &str) -> TokenReply {
    TokenReply { access_token: None, error: Some(code.to_string()) }
}

fn token(t: &str) -> TokenReply {
    TokenReply { access_token: Some(t.to_string()), error: None }
}

#[test]
fn pending_twice_then_token_takes_three_polls() {
    let mut poller = TokenPoller::new(5);
    assert_eq!(poller.on_reply(error("authorization_pending")), Phase::Awaiting);
    assert_eq!(poller.on_reply(error("authorization_pending")), Phase::Awaiting);
    assert_eq!(poller.on_reply(token("gho_abc")), Phase::Succeeded);
    assert_eq!(poller.polls(), 3);
    assert_eq!(poller.token(), "gho_abc");
    assert_eq!(poller.on_reply(error("authorization_pending")), Phase::Succeeded);
    assert_eq!(poller.polls(), 3);
}

#[test]
fn expired_token_fails_at_once() {
    let mut poller = TokenPoller::new(5);
    assert_eq!(poller.on_reply(error("expired_token")), Phase::Failed);
    assert_eq!(poller.polls(), 1);
    assert_eq!(poller.failure(), &AuthFailure::Expired);
    assert_eq!(poller.on_reply(token("late")), Phase::Failed);
    assert_eq!(poller.polls(), 1);
}

#[test]
fn denied_and_unknown_codes_fail() {
    let mut denied = TokenPoller::new(5);
    assert_eq!(denied.on_reply(error("access_denied")), Phase::Failed);
    assert_eq!(denied.failure(), &AuthFailure::Denied);
    let mut other = TokenPoller::new(5);
    assert_eq!(other.on_reply(error("unsupported_grant_type")), Phase::Failed);
    assert_eq!(other.failure(), &AuthFailure::Unknown("unsupported_grant_type".to_string()));
}

#[test]
fn slow_down_waits_five_seconds_more() {
    let mut poller = TokenPoller::new(7);
    assert_eq!(poller.wait(), 7);
    assert_eq!(poller.on_reply(error("slow_down")), Phase::Awaiting);
    assert_eq!(poller.wait(), 12);
    assert_eq!(poller.on_reply(error("authorization_pending")), Phase::Awaiting);
    assert_eq!(poller.wait(), 7);
    let mut capped = TokenPoller::new(u64::MAX - 1);
    capped.on_reply(error("slow_down"));
    assert_eq!(capped.wait(), u64::MAX);
}

#[test]
fn answer_without_token_or_error_keeps_waiting() {
    let mut poller = TokenPoller::new(5);
    let reply = TokenReply { access_token: None, error: None };
    assert_eq!(poller.on_reply(reply), Phase::Awaiting);
    assert_eq!(poller.polls(), 1);
}

#[test]
fn device_code_fields() {
    let d = DeviceCode::from_fields(
        Some("dc".to_string()),
        Some("ABCD-1234".to_string()),
        Some("https://github.com/login/device".to_string()),
        None,
    )
    .ok()
    .unwrap();
    assert_eq!(d.device_code, "dc");
    assert_eq!(d.user_code, "ABCD-1234");
    assert_eq!(d.interval, 5);
    let e = DeviceCode::from_fields(Some("dc".to_string()), None, None, Some(9));
    assert_eq!(e.err(), Some(AuthFailure::MissingUserCode));
    let f = DeviceCode::from_fields(None, None, None, None);
    assert_eq!(f.err(), Some(AuthFailure::MissingDeviceCode));
    let g = DeviceCode::from_fields(Some("dc".to_string()), Some("u".to_string()), None, Some(9));
    assert_eq!(g.err(), Some(AuthFailure::MissingVerificationUri));
}
