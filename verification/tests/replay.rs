use ms_graph_api_demo::flow::{FlowState, Polling};
use ms_graph_api_demo::model::{AccessToken, ApiErrorDetail, AuthError, DeviceCodeSession};
use ms_graph_api_demo::replay::replay;

const PENDING: &str = r#"{"error":"authorization_pending","error_description":"waiting"}"#;
const SUCCESS: &str = r#"{"access_token":"tok","token_type":"Bearer","expires_in":3599}"#;
const DECLINED: &str = r#"{"error":"access_denied","error_description":"no"}"#;

fn session(expires_in: u64, interval: u64) -> DeviceCodeSession {
    DeviceCodeSession {
        device_code: "dev".to_string(),
        user_code: "usr".to_string(),
        verification_uri: "https://example.org/device".to_string(),
        expires_in,
        interval,
    }
}

fn script(bodies: &[&str]) -> Vec<String> {
    bodies.iter().map(|b| b.to_string()).collect()
}

fn token() -> AccessToken {
    AccessToken {
        token: "tok".to_string(),
        token_type: "Bearer".to_string(),
        expires_in: 3599,
        refresh_token: None,
    }
}

#[test]
fn replay_pending_then_success() {
    for n in 0..20usize {
        let mut bodies = vec![PENDING; n];
        bodies.push(SUCCESS);
        let r = replay(session(900, 5), &script(&bodies));
        assert_eq!(r.state, FlowState::Succeeded);
        assert_eq!(r.outcome, Some(Ok(token())));
        assert_eq!(r.polls, n + 1);
        assert_eq!(r.clock, 5 * (n as u64 + 1));
    }
}

#[test]
fn replay_success_too_late_expires() {
    let mut bodies = vec![PENDING; 200];
    bodies.push(SUCCESS);
    let r = replay(session(900, 5), &script(&bodies));
    assert_eq!(r.state, FlowState::Expired);
    assert_eq!(r.outcome, Some(Err(AuthError::SessionExpired)));
    assert_eq!(r.polls, 179);
}

#[test]
fn replay_always_pending_expires() {
    let r = replay(session(60, 5), &script(&vec![PENDING; 60]));
    assert_eq!(r.state, FlowState::Expired);
    assert_eq!(r.outcome, Some(Err(AuthError::SessionExpired)));
    assert_eq!(r.polls, 11);
    assert_eq!(r.clock, 55);
    assert!(r.clock < 60);
}

#[test]
fn replay_script_runs_out_while_polling() {
    let r = replay(session(60, 2), &script(&[PENDING, PENDING, PENDING]));
    assert_eq!(
        r.state,
        FlowState::Polling(Polling { session: session(60, 2), current_interval: 5, next_due: 17 })
    );
    assert_eq!(r.outcome, None);
    assert_eq!(r.polls, 3);
    assert_eq!(r.clock, 12);
}

#[test]
fn replay_denial_on_the_first_poll() {
    let r = replay(session(900, 5), &script(&[DECLINED, PENDING, SUCCESS]));
    assert_eq!(r.state, FlowState::Denied);
    assert_eq!(
        r.outcome,
        Some(Err(AuthError::AuthorizationDenied(ApiErrorDetail {
            code: "access_denied".to_string(),
            message: "no".to_string(),
            inner: None,
        })))
    );
    assert_eq!(r.polls, 1);
}

#[test]
fn replay_session_without_time_sends_nothing() {
    let r = replay(session(5, 5), &script(&[SUCCESS]));
    assert_eq!(r.state, FlowState::Expired);
    assert_eq!(r.outcome, Some(Err(AuthError::SessionExpired)));
    assert_eq!(r.polls, 0);
    assert_eq!(r.clock, 0);
}

#[test]
fn replay_empty_script_keeps_polling() {
    let r = replay(session(900, 5), &Vec::new());
    assert_eq!(
        r.state,
        FlowState::Polling(Polling { session: session(900, 5), current_interval: 5, next_due: 5 })
    );
    assert_eq!(r.outcome, None);
    assert_eq!(r.polls, 0);
}

#[test]
fn replay_malformed_answer_fails() {
    let r = replay(session(900, 5), &script(&[PENDING, "<html>", SUCCESS]));
    assert_eq!(r.state, FlowState::Failed);
    assert_eq!(r.outcome, Some(Err(AuthError::Protocol)));
    assert_eq!(r.polls, 2);
}

#[test]
fn replay_polls_fit_the_lifetime() {
    for (e, i) in [(60u64, 5u64), (100, 30), (900, 7), (61, 20), (10, 9), (12, 2)] {
        let r = replay(session(e, i), &script(&vec![PENDING; 200]));
        assert_eq!(r.outcome, Some(Err(AuthError::SessionExpired)));
        assert!((r.polls as u64) * i < e);
        assert!(r.clock < e);
    }
}
