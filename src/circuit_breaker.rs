use vstd::prelude::*;

verus! {

/// Consecutive failures at which the breaker opens.
pub const FAILURE_THRESHOLD: u32 = 10;

/// Seconds after the last failure from which an open breaker lets operations through again.
pub const RESET_TIMEOUT: i64 = 600;

/// Per-vault failure counter that blocks operations after repeated failures.
///
/// The statistics counters saturate at their type's maximum instead of wrapping.
#[derive(Clone, Copy, Debug, PartialEq, Eq, Structural)]
pub struct CircuitBreakerState {
    pub failure_count: u32,
    pub last_failure_timestamp: i64,
    pub blocked: bool,
    pub total_transactions: u64,
    pub failed_transactions: u64,
}

pub open spec fn saturating_inc_u32(x: u32) -> u32 {
    if x == u32::MAX { x } else { (x + 1) as u32 }
}

pub open spec fn saturating_inc_u64(x: u64) -> u64 {
    if x == u64::MAX { x } else { (x + 1) as u64 }
}

impl CircuitBreakerState {
    /// Whether an operation may run at `now`: the breaker is closed, or more
    /// than the cooldown has passed since the last failure.
    pub open spec fn allows(self, now: int) -> bool {
        !self.blocked || now - self.last_failure_timestamp > RESET_TIMEOUT
    }

    /// The state after a successful operation.
    pub open spec fn after_success(self) -> CircuitBreakerState {
        let total = saturating_inc_u64(self.total_transactions);
        if self.blocked && self.failure_count > 0 {
            let count = (self.failure_count - 1) as u32;
            CircuitBreakerState {
                total_transactions: total,
                failure_count: count,
                blocked: count != 0,
                ..self
            }
        } else {
            CircuitBreakerState { total_transactions: total, ..self }
        }
    }

    /// The state after a failed operation at `now`.
    pub open spec fn after_failure(self, now: i64) -> CircuitBreakerState {
        let count = saturating_inc_u32(self.failure_count);
        CircuitBreakerState {
            failure_count: count,
            last_failure_timestamp: now,
            blocked: self.blocked || count >= FAILURE_THRESHOLD,
            total_transactions: saturating_inc_u64(self.total_transactions),
            failed_transactions: saturating_inc_u64(self.failed_transactions),
        }
    }

    /// The state after a run of failures, one at each of the given timestamps.
    pub open spec fn after_failures(self, times: Seq<i64>) -> CircuitBreakerState
        decreases times.len(),
    {
        if times.len() == 0 {
            self
        } else {
            self.after_failures(times.drop_last()).after_failure(times.last())
        }
    }

    pub fn new() -> (r: CircuitBreakerState)
        ensures
            r.failure_count == 0,
            r.last_failure_timestamp == 0,
            !r.blocked,
            r.total_transactions == 0,
            r.failed_transactions == 0,
    {
        CircuitBreakerState {
            failure_count: 0,
            last_failure_timestamp: 0,
            blocked: false,
            total_transactions: 0,
            failed_transactions: 0,
        }
    }

    /// Whether a guarded operation may run at `current_timestamp`. An open
    /// breaker recovers softly once the cooldown has passed; nothing is changed.
    pub fn can_execute(&self, current_timestamp: i64) -> (r: bool)
        ensures
            r == self.allows(current_timestamp as int),
    {
        if !self.blocked {
            return true;
        }
        if self.last_failure_timestamp <= i64::MAX - RESET_TIMEOUT
            && current_timestamp > self.last_failure_timestamp + RESET_TIMEOUT {
            return true;
        }
        false
    }

    /// Records a successful operation; an open breaker decays by one failure
    /// and closes once none is left.
    pub fn on_success(&mut self)
        ensures
            *final(self) == old(self).after_success(),
    {
        if self.total_transactions < u64::MAX {
            self.total_transactions = self.total_transactions + 1;
        }
        if self.blocked && self.failure_count > 0 {
            self.failure_count = self.failure_count - 1;
            if self.failure_count == 0 {
                self.blocked = false;
            }
        }
    }

    /// Records a failed operation at `current_timestamp`; the breaker opens once
    /// the failure count reaches the threshold.
    pub fn on_failure(&mut self, current_timestamp: i64)
        ensures
            *final(self) == old(self).after_failure(current_timestamp),
    {
        if self.total_transactions < u64::MAX {
            self.total_transactions = self.total_transactions + 1;
        }
        if self.failed_transactions < u64::MAX {
            self.failed_transactions = self.failed_transactions + 1;
        }
        if self.failure_count < u32::MAX {
            self.failure_count = self.failure_count + 1;
        }
        self.last_failure_timestamp = current_timestamp;
        if self.failure_count >= FAILURE_THRESHOLD {
            self.blocked = true;
        }
    }
}

proof fn lemma_failures_count(cb: CircuitBreakerState, times: Seq<i64>)
    ensures
        cb.after_failures(times).failure_count >= if cb.failure_count + times.len() > u32::MAX {
            u32::MAX as int
        } else {
            cb.failure_count + times.len()
        },
        times.len() > 0 ==> cb.after_failures(times).last_failure_timestamp == times.last(),
        cb.blocked ==> cb.after_failures(times).blocked,
        cb.after_failures(times).failure_count >= FAILURE_THRESHOLD ==> cb.after_failures(times).blocked
            || times.len() == 0,
    decreases times.len(),
{
    if times.len() > 0 {
        lemma_failures_count(cb, times.drop_last());
    }
}

/// Ten consecutive failures open the breaker. Until the cooldown after the last
/// of them has passed no operation may run; after it, operations may run again
/// although the breaker stays open until successes decay it.
pub proof fn lemma_breaker_trips(cb: CircuitBreakerState, times: Seq<i64>, now: int)
    requires
        times.len() == FAILURE_THRESHOLD,
    ensures
        cb.after_failures(times).blocked,
        now - times.last() <= RESET_TIMEOUT ==> !cb.after_failures(times).allows(now),
        now - times.last() > RESET_TIMEOUT ==> cb.after_failures(times).allows(now),
{
    lemma_failures_count(cb, times);
}

} // verus!
