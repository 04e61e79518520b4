use ms_graph_api_demo::device::{poll_reply, PollReply, MIN_REPOLL_SECS};
use ms_graph_api_demo::flow::{begin, poll_step, start, step, Action, Event, FlowState, Polling};
use ms_graph_api_demo::model::{AccessToken, ApiErrorDetail, AuthError, DeviceCodeSession};

const PENDING: &str = r#"{"error":"authorization_pending","error_description":"waiting"}"#;
const SUCCESS: &str = r#"{"access_token":"tok","token_type":"Bearer","expires_in":3599}"#;
const DECLINED: &str = r#"{"error":"authorization_declined","error_description":"no"}"#;

fn session(expires_in: u64, interval: u64) -> DeviceCodeSession {
    DeviceCodeSession {
        device_code: "dev".to_string(),
        user_code: "usr".to_string(),
        verification_uri: "https://example.org/device".to_string(),
        expires_in,
        interval,
    }
}

fn token() -> AccessToken {
    AccessToken {
        token: "tok".to_string(),
        token_type: "Bearer".to_string(),
        expires_in: 3599,
        refresh_token: None,
    }
}

/// Runs a flow against scripted answers on a simulated clock that advances
/// by exactly the waits asked for. Returns the result, the number of polls
/// sent, the waits, and the time at which the flow ended.
fn run(s: DeviceCodeSession, script: &[&str]) -> (Result<AccessToken, AuthError>, usize, Vec<u64>, u64) {
    let declared = s.clone();
    let (mut state, mut action) = step(start(), Event::SessionAnswered(Ok(s)));
    let mut clock: u64 = 0;
    let mut polls: usize = 0;
    let mut waits: Vec<u64> = Vec::new();
    loop {
        match action {
            Action::PromptAndPoll { wait } | Action::WaitAndPoll { wait } => {
                if let FlowState::Polling(p) = &state {
                    assert_eq!(p.session, declared);
                    assert_eq!(p.current_interval, wait);
                    assert_eq!(p.next_due, clock + wait);
                    assert!(p.next_due < declared.expires_in);
                } else {
                    panic!("a wait outside the polling state");
                }
                clock += wait;
                waits.push(wait);
                let body = if polls < script.len() { script[polls] } else { PENDING };
                polls += 1;
                let (next, act) =
                    step(state, Event::PollAnswered { elapsed: clock, reply: poll_reply(body) });
                state = next;
                action = act;
            }
            Action::Finish(result) => return (result, polls, waits, clock),
            Action::Ignore => panic!("the flow ignored an event it was owed"),
        }
    }
}

#[test]
fn pending_then_success_polls_once_more() {
    for n in 0..6usize {
        let mut script: Vec<&str> = vec![PENDING; n];
        script.push(SUCCESS);
        let (result, polls, waits, _) = run(session(900, 7), &script);
        assert_eq!(result, Ok(token()));
        assert_eq!(polls, n + 1);
        assert_eq!(waits, vec![7u64; n + 1]);
    }
}

#[test]
fn short_interval_is_widened_after_pending() {
    let (result, polls, waits, clock) = run(session(900, 2), &[PENDING, PENDING, SUCCESS]);
    assert_eq!(result, Ok(token()));
    assert_eq!(polls, 3);
    assert_eq!(waits, vec![2, 5, 5]);
    assert_eq!(clock, 12);
}

#[test]
fn waits_do_not_follow_the_lifetime() {
    let (_, _, waits, _) = run(session(900, 5), &[PENDING, PENDING, PENDING, SUCCESS]);
    assert_eq!(waits, vec![5, 5, 5, 5]);
}

#[test]
fn always_pending_expires_within_the_lifetime() {
    let (result, polls, waits, clock) = run(session(60, 5), &[]);
    assert_eq!(result, Err(AuthError::SessionExpired));
    assert_eq!(polls, 11);
    assert_eq!(waits, vec![5u64; 11]);
    assert_eq!(clock, 55);
    assert!(clock < 60);
}

#[test]
fn always_pending_expires_with_a_long_interval() {
    let (result, polls, _, clock) = run(session(100, 30), &[]);
    assert_eq!(result, Err(AuthError::SessionExpired));
    assert_eq!(polls, 3);
    assert_eq!(clock, 90);
}

#[test]
fn denial_on_the_first_poll_ends_the_flow() {
    let (result, polls, _, _) = run(session(900, 5), &[DECLINED, SUCCESS]);
    assert_eq!(
        result,
        Err(AuthError::AuthorizationDenied(ApiErrorDetail {
            code: "authorization_declined".to_string(),
            message: "no".to_string(),
            inner: None,
        }))
    );
    assert_eq!(polls, 1);
}

#[test]
fn denied_flow_ignores_later_events() {
    let (state, _) = step(start(), Event::SessionAnswered(Ok(session(900, 5))));
    let (state, action) = step(state, Event::PollAnswered { elapsed: 5, reply: poll_reply(DECLINED) });
    assert_eq!(state, FlowState::Denied);
    assert!(matches!(action, Action::Finish(Err(AuthError::AuthorizationDenied(_)))));
    let (state, action) = step(state, Event::PollAnswered { elapsed: 10, reply: poll_reply(SUCCESS) });
    assert_eq!(state, FlowState::Denied);
    assert_eq!(action, Action::Ignore);
    let (state, action) = step(state, Event::TransportFailed);
    assert_eq!(state, FlowState::Denied);
    assert_eq!(action, Action::Ignore);
}

#[test]
fn start_is_initiated() {
    assert_eq!(start(), FlowState::Initiated);
}

#[test]
fn begin_prompts_and_waits_the_interval() {
    let (state, action) = begin(session(900, 5));
    assert_eq!(
        state,
        FlowState::Polling(Polling { session: session(900, 5), current_interval: 5, next_due: 5 })
    );
    assert_eq!(action, Action::PromptAndPoll { wait: 5 });
}

#[test]
fn begin_with_no_time_to_poll_expires() {
    for (e, i) in [(0u64, 0u64), (5, 5), (5, 6), (0, u64::MAX)] {
        let (state, action) = begin(session(e, i));
        assert_eq!(state, FlowState::Expired);
        assert_eq!(action, Action::Finish(Err(AuthError::SessionExpired)));
    }
}

#[test]
fn failed_initiation_is_fatal() {
    let (state, action) = step(start(), Event::SessionAnswered(Err(AuthError::Protocol)));
    assert_eq!(state, FlowState::Failed);
    assert_eq!(action, Action::Finish(Err(AuthError::Protocol)));
}

#[test]
fn transport_failure_is_not_retried() {
    let (state, action) = step(start(), Event::TransportFailed);
    assert_eq!(state, FlowState::Failed);
    assert_eq!(action, Action::Finish(Err(AuthError::Transport)));
    let (polling, _) = begin(session(900, 5));
    let (state, action) = step(polling, Event::TransportFailed);
    assert_eq!(state, FlowState::Failed);
    assert_eq!(action, Action::Finish(Err(AuthError::Transport)));
}

#[test]
fn events_out_of_place_are_ignored() {
    let (state, action) = step(start(), Event::PollAnswered { elapsed: 1, reply: PollReply::Pending });
    assert_eq!(state, FlowState::Initiated);
    assert_eq!(action, Action::Ignore);
    let (polling, _) = begin(session(900, 5));
    let (state, action) = step(polling.clone(), Event::SessionAnswered(Ok(session(1, 1))));
    assert_eq!(state, polling);
    assert_eq!(action, Action::Ignore);
}

#[test]
fn late_answer_expires_whatever_it_says() {
    let p = Polling { session: session(60, 5), current_interval: 5, next_due: 55 };
    let (state, action) = poll_step(p.clone(), 61, PollReply::Token(token()));
    assert_eq!(state, FlowState::Expired);
    assert_eq!(action, Action::Finish(Err(AuthError::SessionExpired)));
    let (state, action) = poll_step(p, 60, PollReply::Token(token()));
    assert_eq!(state, FlowState::Succeeded);
    assert_eq!(action, Action::Finish(Ok(token())));
}

#[test]
fn pending_near_the_deadline_expires() {
    let p = Polling { session: session(60, 5), current_interval: 5, next_due: 55 };
    let (state, _) = poll_step(p.clone(), 55, PollReply::Pending);
    assert_eq!(state, FlowState::Expired);
    let (state, action) = poll_step(p, 54, PollReply::Pending);
    assert_eq!(
        state,
        FlowState::Polling(Polling { session: session(60, 5), current_interval: 5, next_due: 59 })
    );
    assert_eq!(action, Action::WaitAndPoll { wait: 5 });
}

#[test]
fn pending_at_the_largest_times_does_not_overflow() {
    let p = Polling { session: session(u64::MAX, u64::MAX - 1), current_interval: u64::MAX - 1, next_due: u64::MAX - 1 };
    let (state, _) = poll_step(p.clone(), u64::MAX, PollReply::Pending);
    assert_eq!(state, FlowState::Expired);
    let (state, action) = poll_step(p, 0, PollReply::Pending);
    assert_eq!(action, Action::WaitAndPoll { wait: u64::MAX - 1 });
    assert!(matches!(state, FlowState::Polling(_)));
}

#[test]
fn provider_expiry_and_malformed_answers_end_the_flow() {
    let p = Polling { session: session(60, 5), current_interval: 5, next_due: 5 };
    let (state, action) = poll_step(p.clone(), 5, PollReply::Rejected(AuthError::SessionExpired));
    assert_eq!(state, FlowState::Expired);
    assert_eq!(action, Action::Finish(Err(AuthError::SessionExpired)));
    let (state, action) = poll_step(p, 5, PollReply::Malformed);
    assert_eq!(state, FlowState::Failed);
    assert_eq!(action, Action::Finish(Err(AuthError::Protocol)));
}

#[test]
fn least_repoll_delay_is_five_seconds() {
    assert_eq!(MIN_REPOLL_SECS, 5);
}
