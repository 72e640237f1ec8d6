use jito_sdk_rust::error::{FailureCause, SdkError};
use jito_sdk_rust::retry::{
    simulate, AttemptOutcome, RetryReport, RetryState, RetryStep, INITIAL_DELAY_MS, MAX_ATTEMPTS,
};

fn failures_then(failures: usize, last: AttemptOutcome) -> Vec<AttemptOutcome> {
    let mut outcomes = vec![AttemptOutcome::CallFailed; failures];
    outcomes.push(last);
    outcomes
}

#[test]
fn the_policy_is_five_attempts_from_100_ms() {
    assert_eq!(MAX_ATTEMPTS, 5);
    assert_eq!(INITIAL_DELAY_MS, 100);
}

#[test]
fn success_after_k_failures_waits_100_times_two_to_the_k_minus_one() {
    let expected_wait = [0u64, 100, 300, 700, 1500];
    for k in 0..5usize {
        let report = simulate(&failures_then(k, AttemptOutcome::Success)).unwrap();
        assert_eq!(
            report,
            RetryReport { result: Ok(()), attempts: k as u32 + 1, waited_ms: expected_wait[k] }
        );
        assert_eq!(report.waited_ms, 100 * (2u64.pow(k as u32) - 1));
    }
}

#[test]
fn five_failures_end_the_call_after_exactly_five_attempts() {
    let report = simulate(&vec![AttemptOutcome::CallFailed; 5]).unwrap();
    assert_eq!(
        report,
        RetryReport {
            result: Err(SdkError::RetriesExhausted { attempts: 5, cause: FailureCause::CallFailed }),
            attempts: 5,
            waited_ms: 1500,
        }
    );
}

#[test]
fn outcomes_after_the_end_are_not_looked_at() {
    let mut outcomes = vec![AttemptOutcome::NotReady; 5];
    outcomes.push(AttemptOutcome::Success);
    let report = simulate(&outcomes).unwrap();
    assert_eq!(
        report.result,
        Err(SdkError::RetriesExhausted { attempts: 5, cause: FailureCause::NotReady })
    );
    assert_eq!(report.attempts, 5);
    let outcomes = vec![AttemptOutcome::Success, AttemptOutcome::CallFailed];
    assert_eq!(simulate(&outcomes), Some(RetryReport { result: Ok(()), attempts: 1, waited_ms: 0 }));
}

#[test]
fn the_cause_is_that_of_the_last_failure() {
    let mut outcomes = vec![AttemptOutcome::CallFailed; 4];
    outcomes.push(AttemptOutcome::NotReady);
    assert_eq!(
        simulate(&outcomes).unwrap().result,
        Err(SdkError::RetriesExhausted { attempts: 5, cause: FailureCause::NotReady })
    );
}

#[test]
fn a_payload_that_cannot_be_read_is_not_tried_again() {
    assert_eq!(
        simulate(&vec![AttemptOutcome::Unparsable, AttemptOutcome::Success]),
        Some(RetryReport { result: Err(SdkError::InvalidResponse), attempts: 1, waited_ms: 0 })
    );
    assert_eq!(
        simulate(&failures_then(2, AttemptOutcome::Unparsable)),
        Some(RetryReport { result: Err(SdkError::InvalidResponse), attempts: 3, waited_ms: 300 })
    );
}

#[test]
fn a_call_that_has_not_ended_has_no_report() {
    assert_eq!(simulate(&vec![]), None);
    assert_eq!(simulate(&vec![AttemptOutcome::NotReady]), None);
    assert_eq!(simulate(&vec![AttemptOutcome::CallFailed; 4]), None);
}

fn retried(step: RetryStep) -> (u64, RetryState) {
    match step {
        RetryStep::Retry { delay_ms, state } => (delay_ms, state),
        other => panic!("the call ended: {:?}", other),
    }
}

#[test]
fn the_waits_double_from_100_ms() {
    let mut state = RetryState::new();
    assert_eq!(state.attempts(), 1);
    assert_eq!(state.waited_ms(), 0);
    let mut waited = 0;
    for (i, expected) in [100u64, 200, 400, 800].iter().enumerate() {
        let outcome = if i % 2 == 0 { AttemptOutcome::NotReady } else { AttemptOutcome::CallFailed };
        let (delay_ms, next) = retried(state.record(outcome));
        assert_eq!(delay_ms, *expected);
        waited += delay_ms;
        state = next;
        assert_eq!(state.attempts(), i as u32 + 2);
        assert_eq!(state.waited_ms(), waited);
    }
    assert_eq!(state.attempts(), 5);
    assert_eq!(state.waited_ms(), 1500);
    assert_eq!(
        state.record(AttemptOutcome::NotReady),
        RetryStep::Fail(SdkError::RetriesExhausted { attempts: 5, cause: FailureCause::NotReady })
    );
}

#[test]
fn a_success_ends_the_call_at_once() {
    assert_eq!(RetryState::new().record(AttemptOutcome::Success), RetryStep::Return);
    let (delay_ms, state) = retried(RetryState::new().record(AttemptOutcome::CallFailed));
    assert_eq!(delay_ms, 100);
    assert_eq!(state.attempts(), 2);
    assert_eq!(state.waited_ms(), 100);
    assert_eq!(state.record(AttemptOutcome::Success), RetryStep::Return);
}

#[test]
fn an_unreadable_payload_ends_the_call_at_once() {
    assert_eq!(
        RetryState::new().record(AttemptOutcome::Unparsable),
        RetryStep::Fail(SdkError::InvalidResponse)
    );
    let (_, state) = retried(RetryState::new().record(AttemptOutcome::NotReady));
    assert_eq!(state.record(AttemptOutcome::Unparsable), RetryStep::Fail(SdkError::InvalidResponse));
}
