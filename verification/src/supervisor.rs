//! The agent's reconnecting supervisor: one live channel at a time, and a
//! bounded exponential backoff between failed attempts.
//!
//! The supervisor itself neither connects nor sleeps. The caller runs the
//! loop: it performs the [`SupervisorAction`] it was given and reports how
//! that ended, and the supervisor answers with the next action.

use vstd::prelude::*;

verus! {

/// Consecutive failures after which the supervisor gives up.
pub const MAX_RETRIES: u32 = 10;

/// Milliseconds to wait after the first failure.
pub const INITIAL_RETRY_DELAY_MS: u64 = 1000;

/// The longest wait between two attempts, in milliseconds.
pub const MAX_RETRY_DELAY_MS: u64 = 30000;

/// Exit code when the retries are exhausted.
pub const GATEWAY_UNREACHABLE_EXIT_CODE: i32 = 1;

/// Exit code after a shutdown request.
pub const SHUTDOWN_EXIT_CODE: i32 = 0;

/// How a connection attempt, or the channel it opened, ended.
#[derive(Clone, Copy, Debug, PartialEq, Eq, Structural)]
pub enum ConnectionEnd {
    /// The channel was open and the gateway closed it in good order.
    Closed,
    /// A shutdown request ended the channel.
    ShutDown,
    /// The attempt failed, or the channel broke.
    Failed,
}

/// How a wait between two attempts ended.
#[derive(Clone, Copy, Debug, PartialEq, Eq, Structural)]
pub enum WaitEnd {
    /// The delay elapsed.
    Elapsed,
    /// A shutdown request arrived first.
    ShutDown,
}

/// What the caller does next.
#[derive(Clone, Copy, Debug, PartialEq, Eq, Structural)]
pub enum SupervisorAction {
    /// Open a channel now.
    Connect,
    /// Sleep for the delay, unless a shutdown request arrives first.
    Wait { delay_ms: u64 },
    /// Leave with the exit code.
    Exit { code: i32 },
}

/// The supervisor's memory: the failures since the last open channel and the
/// delay the next wait will take.
#[derive(Clone, Copy, Debug, PartialEq, Eq, Structural)]
pub struct RetryState {
    pub retry_count: u32,
    pub delay_ms: u64,
}

/// The delay of the wait after failure number `failures + 1`: the initial
/// delay doubled `failures` times, capped at the maximum.
pub open spec fn backoff_delay(failures: nat) -> nat
    decreases failures,
{
    if failures == 0 {
        INITIAL_RETRY_DELAY_MS as nat
    } else if 2 * backoff_delay((failures - 1) as nat) > MAX_RETRY_DELAY_MS {
        MAX_RETRY_DELAY_MS as nat
    } else {
        2 * backoff_delay((failures - 1) as nat)
    }
}

/// A delay doubled and capped at the maximum.
pub open spec fn doubled_delay(delay_ms: u64) -> u64 {
    if delay_ms > MAX_RETRY_DELAY_MS / 2 {
        MAX_RETRY_DELAY_MS
    } else {
        (2 * delay_ms) as u64
    }
}

/// The state before any failure.
pub open spec fn initial_state() -> RetryState {
    RetryState { retry_count: 0, delay_ms: INITIAL_RETRY_DELAY_MS }
}

/// The states the supervisor reaches from the initial one: fewer failures
/// than the limit, and the delay that belongs to that many failures.
pub open spec fn consistent(state: RetryState) -> bool {
    &&& state.retry_count < MAX_RETRIES
    &&& state.delay_ms == backoff_delay(state.retry_count as nat)
}

/// The state and the action after a connection has ended.
///
/// A channel closed in good order resets the state and is reopened at once.
/// A shutdown request ends the supervisor with exit code 0. A failure counts;
/// the tenth in a row ends the supervisor with exit code 1, an earlier one
/// is followed by a wait whose delay then doubles, up to the maximum.
pub open spec fn after_connection(state: RetryState, end: ConnectionEnd) -> (
    RetryState,
    SupervisorAction,
) {
    match end {
        ConnectionEnd::Closed => (initial_state(), SupervisorAction::Connect),
        ConnectionEnd::ShutDown => (state, SupervisorAction::Exit { code: SHUTDOWN_EXIT_CODE }),
        ConnectionEnd::Failed => if state.retry_count + 1 >= MAX_RETRIES {
            (state, SupervisorAction::Exit { code: GATEWAY_UNREACHABLE_EXIT_CODE })
        } else {
            (
                RetryState {
                    retry_count: (state.retry_count + 1) as u32,
                    delay_ms: doubled_delay(state.delay_ms),
                },
                SupervisorAction::Wait { delay_ms: state.delay_ms },
            )
        },
    }
}

/// The action after a wait has ended: a new attempt, or exit code 0 if a
/// shutdown request cut the wait short.
pub open spec fn after_wait(end: WaitEnd) -> SupervisorAction {
    match end {
        WaitEnd::Elapsed => SupervisorAction::Connect,
        WaitEnd::ShutDown => SupervisorAction::Exit { code: SHUTDOWN_EXIT_CODE },
    }
}

/// The state after `n` failures in a row, none of them the last.
pub open spec fn after_failures(n: nat) -> RetryState
    decreases n,
{
    if n == 0 {
        initial_state()
    } else {
        after_connection(after_failures((n - 1) as nat), ConnectionEnd::Failed).0
    }
}

/// No delay is shorter than the initial one or longer than the maximum.
pub proof fn lemma_delay_bounds(failures: nat)
    ensures
        INITIAL_RETRY_DELAY_MS <= backoff_delay(failures) <= MAX_RETRY_DELAY_MS,
    decreases failures,
{
    if failures > 0 {
        lemma_delay_bounds((failures - 1) as nat);
    }
}

/// The delays never shrink from one failure to the next.
pub proof fn lemma_delay_monotonic(failures: nat)
    ensures
        backoff_delay(failures) <= backoff_delay(failures + 1),
{
    lemma_delay_bounds(failures);
}

/// The delays of the first nine waits, in milliseconds: 1000, 2000, 4000,
/// 8000, 16000, and 30000 from then on.
pub proof fn lemma_delay_table()
    ensures
        backoff_delay(0) == 1000,
        backoff_delay(1) == 2000,
        backoff_delay(2) == 4000,
        backoff_delay(3) == 8000,
        backoff_delay(4) == 16000,
        forall|k: nat| k >= 5 ==> #[trigger] backoff_delay(k) == 30000,
{
    assert(backoff_delay(0) == 1000);
    assert(backoff_delay(1) == 2000);
    assert(backoff_delay(2) == 4000);
    assert(backoff_delay(3) == 8000);
    assert(backoff_delay(4) == 16000);
    assert forall|k: nat| k >= 5 implies #[trigger] backoff_delay(k) == 30000 by {
        lemma_capped_from(k);
    }
}

proof fn lemma_capped_from(k: nat)
    requires
        k >= 5,
    ensures
        backoff_delay(k) == 30000,
    decreases k,
{
    assert(backoff_delay(0) == 1000);
    assert(backoff_delay(1) == 2000);
    assert(backoff_delay(2) == 4000);
    assert(backoff_delay(3) == 8000);
    assert(backoff_delay(4) == 16000);
    if k > 5 {
        lemma_capped_from((k - 1) as nat);
    }
}

/// Whatever ends a connection, a consistent state is followed by a
/// consistent state.
pub proof fn lemma_consistency_is_kept(state: RetryState, end: ConnectionEnd)
    requires
        consistent(state),
    ensures
        consistent(after_connection(state, end).0),
{
    lemma_delay_bounds(state.retry_count as nat);
}

/// Failure after failure from the initial state: the first nine are each
/// followed by a wait, of the delay that belongs to the number of failures
/// before it, and the tenth ends the supervisor with exit code 1.
pub proof fn lemma_consecutive_failures(n: nat)
    requires
        n < MAX_RETRIES,
    ensures
        consistent(after_failures(n)),
        after_failures(n).retry_count == n,
        after_connection(after_failures(n), ConnectionEnd::Failed).1 == if n + 1 < MAX_RETRIES {
            SupervisorAction::Wait { delay_ms: backoff_delay(n) as u64 }
        } else {
            SupervisorAction::Exit { code: GATEWAY_UNREACHABLE_EXIT_CODE }
        },
    decreases n,
{
    if n > 0 {
        lemma_consecutive_failures((n - 1) as nat);
        lemma_consistency_is_kept(after_failures((n - 1) as nat), ConnectionEnd::Failed);
    }
}

impl RetryState {
    /// The state of a supervisor that has not failed yet.
    pub fn new() -> (state: RetryState)
        ensures
            state == initial_state(),
            consistent(state),
    {
        RetryState { retry_count: 0, delay_ms: INITIAL_RETRY_DELAY_MS }
    }

    /// Takes note of how a connection ended and says what to do next.
    pub fn on_connection_end(&mut self, end: ConnectionEnd) -> (action: SupervisorAction)
        ensures
            (*final(self), action) == after_connection(*old(self), end),
    {
        match end {
            ConnectionEnd::Closed => {
                self.retry_count = 0;
                self.delay_ms = INITIAL_RETRY_DELAY_MS;
                SupervisorAction::Connect
            },
            ConnectionEnd::ShutDown => SupervisorAction::Exit { code: SHUTDOWN_EXIT_CODE },
            ConnectionEnd::Failed => {
                if self.retry_count >= MAX_RETRIES - 1 {
                    SupervisorAction::Exit { code: GATEWAY_UNREACHABLE_EXIT_CODE }
                } else {
                    let delay_ms = self.delay_ms;
                    self.retry_count = self.retry_count + 1;
                    self.delay_ms = if delay_ms > MAX_RETRY_DELAY_MS / 2 {
                        MAX_RETRY_DELAY_MS
                    } else {
                        2 * delay_ms
                    };
                    SupervisorAction::Wait { delay_ms }
                }
            },
        }
    }

    /// Says what to do after a wait has ended.
    pub fn on_wait_end(&self, end: WaitEnd) -> (action: SupervisorAction)
        ensures
            action == after_wait(end),
    {
        match end {
            WaitEnd::Elapsed => SupervisorAction::Connect,
            WaitEnd::ShutDown => SupervisorAction::Exit { code: SHUTDOWN_EXIT_CODE },
        }
    }
}

} // verus!
