use gql_gateway::adapter::AdapterError;
use gql_gateway::proxy::{
    forward_payload, Attempt, RetryState, Step, MAX_ATTEMPTS, RETRY_INTERVAL_MS,
};

fn refused(n: u32) -> Attempt {
    Attempt::Unreachable { error: format!("connection refused ({n})") }
}

#[test]
fn reached_after_three_failures() {
    let mut state = RetryState::new();
    for n in 0..3 {
        match state.record(refused(n)) {
            Step::Wait { delay_ms } => assert_eq!(delay_ms, 10),
            _ => panic!("expected a pause"),
        }
    }
    let body = "{\"data\":{\"add\":3}}".to_string();
    match state.record(Attempt::Reached { status: 200, body: body.clone() }) {
        Step::Forward { status, body: relayed } => {
            assert_eq!(status, 200);
            assert_eq!(relayed, body);
        }
        _ => panic!("expected a forward"),
    }
    assert_eq!(state.attempts, 4);
    assert_eq!(state.retries(), 3);
    assert_eq!(state.waited_ms, 30);
    assert!(state.finished);
}

#[test]
fn reached_at_once_waits_nothing() {
    let mut state = RetryState::new();
    let step = state.record(Attempt::Reached { status: 200, body: "{}".to_string() });
    assert!(matches!(step, Step::Forward { status: 200, .. }));
    assert_eq!(state.retries(), 0);
    assert_eq!(state.waited_ms, 0);
}

#[test]
fn reached_on_the_last_allowed_attempt() {
    let mut state = RetryState::new();
    for n in 0..499 {
        assert!(matches!(state.record(refused(n)), Step::Wait { .. }));
    }
    let step = state.record(Attempt::Reached { status: 200, body: "{}".to_string() });
    assert!(matches!(step, Step::Forward { status: 200, .. }));
    assert_eq!(state.attempts, 500);
    assert_eq!(state.waited_ms, 4990);
}

#[test]
fn never_reachable_gives_up_after_the_ceiling() {
    let mut state = RetryState::new();
    let mut attempts: u32 = 0;
    let mut waited: u64 = 0;
    let error = loop {
        attempts += 1;
        match state.record(refused(attempts)) {
            Step::Wait { delay_ms } => waited += delay_ms,
            Step::Fail(e) => break e,
            Step::Forward { .. } => panic!("nothing was reached"),
        }
        assert!(attempts < 10_000, "the retry loop does not end");
    };
    assert_eq!(attempts, MAX_ATTEMPTS);
    assert_eq!(attempts, 500);
    assert_eq!(waited, 4990);
    assert_eq!(state.waited_ms, 4990);
    assert_eq!(waited, (MAX_ATTEMPTS as u64 - 1) * RETRY_INTERVAL_MS);
    assert_eq!(error.message, "connection refused (500)");
    assert!(state.finished);
}

#[test]
fn backend_error_status_is_relayed_verbatim() {
    let mut state = RetryState::new();
    let body = "{\"errors\":[{\"message\":\"bad request\"}]}".to_string();
    match state.record(Attempt::Reached { status: 400, body: body.clone() }) {
        Step::Forward { status, body: relayed } => {
            assert_eq!(status, 400);
            assert_eq!(relayed, body);
        }
        _ => panic!("a reached backend is relayed"),
    }
}

#[test]
fn forward_payload_keeps_the_text() {
    let body = b"{\"query\":\"{ me { id } }\"}";
    match forward_payload(body) {
        Ok(t) => assert_eq!(t, "{\"query\":\"{ me { id } }\"}"),
        Err(_) => panic!("valid text was refused"),
    }
}

#[test]
fn forward_payload_refuses_invalid_utf8() {
    assert!(matches!(forward_payload(&[0x7b, 0xff, 0xfe]), Err(AdapterError::Decode)));
}

#[test]
fn unreadable_answer_fails_at_once() {
    let mut state = RetryState::new();
    assert!(matches!(state.record(refused(1)), Step::Wait { .. }));
    match state.record(Attempt::Unreadable { error: "body cut short".to_string() }) {
        Step::Fail(e) => assert_eq!(e.message, "body cut short"),
        _ => panic!("an unreadable answer is not retried"),
    }
    assert!(state.finished);
    assert_eq!(state.attempts, 2);
    assert_eq!(state.waited_ms, 10);
}
