use reverse_tunnel::supervisor::{
    ConnectionEnd, RetryState, SupervisorAction, WaitEnd, GATEWAY_UNREACHABLE_EXIT_CODE,
    INITIAL_RETRY_DELAY_MS, MAX_RETRIES, MAX_RETRY_DELAY_MS, SHUTDOWN_EXIT_CODE,
};

#[test]
fn supervisor_constants() {
    assert_eq!(MAX_RETRIES, 10);
    assert_eq!(INITIAL_RETRY_DELAY_MS, 1000);
    assert_eq!(MAX_RETRY_DELAY_MS, 30000);
    assert_eq!(GATEWAY_UNREACHABLE_EXIT_CODE, 1);
    assert_eq!(SHUTDOWN_EXIT_CODE, 0);
}

#[test]
fn ten_consecutive_failures_wait_nine_times_and_give_up() {
    let mut state = RetryState::new();
    let mut delays = Vec::new();
    let mut attempts = 0;
    loop {
        attempts += 1;
        match state.on_connection_end(ConnectionEnd::Failed) {
            SupervisorAction::Wait { delay_ms } => {
                delays.push(delay_ms);
                assert_eq!(state.on_wait_end(WaitEnd::Elapsed), SupervisorAction::Connect);
            }
            SupervisorAction::Exit { code } => {
                assert_eq!(code, 1);
                break;
            }
            SupervisorAction::Connect => panic!("a failure is never followed by an attempt at once"),
        }
    }
    assert_eq!(attempts, 10);
    assert_eq!(delays, vec![1000, 2000, 4000, 8000, 16000, 30000, 30000, 30000, 30000]);
}

#[test]
fn first_failure_schedules_a_retry_in_one_second() {
    let mut state = RetryState::new();
    assert_eq!(
        state.on_connection_end(ConnectionEnd::Failed),
        SupervisorAction::Wait { delay_ms: 1000 }
    );
    assert_eq!(state, RetryState { retry_count: 1, delay_ms: 2000 });
}

#[test]
fn graceful_close_resets_count_and_delay_and_reconnects_at_once() {
    let mut state = RetryState::new();
    for _ in 0..6 {
        state.on_connection_end(ConnectionEnd::Failed);
    }
    assert_eq!(state, RetryState { retry_count: 6, delay_ms: 30000 });
    assert_eq!(state.on_connection_end(ConnectionEnd::Closed), SupervisorAction::Connect);
    assert_eq!(state, RetryState { retry_count: 0, delay_ms: 1000 });
    assert_eq!(
        state.on_connection_end(ConnectionEnd::Failed),
        SupervisorAction::Wait { delay_ms: 1000 }
    );
}

#[test]
fn shutdown_during_the_wait_exits_with_code_zero() {
    let state = RetryState::new();
    assert_eq!(state.on_wait_end(WaitEnd::ShutDown), SupervisorAction::Exit { code: 0 });
}

#[test]
fn shutdown_of_a_live_channel_exits_with_code_zero() {
    let mut state = RetryState::new();
    state.on_connection_end(ConnectionEnd::Failed);
    assert_eq!(
        state.on_connection_end(ConnectionEnd::ShutDown),
        SupervisorAction::Exit { code: 0 }
    );
}

#[test]
fn a_state_out_of_the_ordinary_is_still_capped() {
    let mut state = RetryState { retry_count: 3, delay_ms: u64::MAX };
    assert_eq!(
        state.on_connection_end(ConnectionEnd::Failed),
        SupervisorAction::Wait { delay_ms: u64::MAX }
    );
    assert_eq!(state, RetryState { retry_count: 4, delay_ms: 30000 });
    let mut late = RetryState { retry_count: u32::MAX, delay_ms: 1000 };
    assert_eq!(late.on_connection_end(ConnectionEnd::Failed), SupervisorAction::Exit { code: 1 });
}
