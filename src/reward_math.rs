use vstd::prelude::*;
use crate::error::ErrorCode;

verus! {

/// What `calculate_rewards` yields: the product `elapsed * rate * staked`,
/// computed in two checked steps, for an elapsed time inside `[0, max_elapsed]`.
pub open spec fn spec_accrue(elapsed: int, max_elapsed: int, rate: int, staked: int) -> Result<u64, ErrorCode> {
    if elapsed < 0 || elapsed > max_elapsed {
        Err(ErrorCode::InvalidTimeElapsed)
    } else if elapsed * rate > u64::MAX {
        Err(ErrorCode::MathOverflow)
    } else if elapsed * rate * staked > u64::MAX {
        Err(ErrorCode::MathOverflow)
    } else {
        Ok((elapsed * rate * staked) as u64)
    }
}

/// The reward owed for `time_elapsed` seconds at `reward_rate_per_second` per
/// item for `staked_nfts` items. The elapsed time must lie in
/// `[0, max_time_elapsed]`; each multiplication is checked and never wraps.
pub fn calculate_rewards(
    time_elapsed: i64,
    max_time_elapsed: i64,
    reward_rate_per_second: u64,
    staked_nfts: u64,
) -> (r: Result<u64, ErrorCode>)
    ensures
        r == spec_accrue(time_elapsed as int, max_time_elapsed as int, reward_rate_per_second as int, staked_nfts as int),
{
    if time_elapsed < 0 || time_elapsed > max_time_elapsed {
        return Err(ErrorCode::InvalidTimeElapsed);
    }
    let elapsed: u64 = time_elapsed as u64;
    let per_item = match elapsed.checked_mul(reward_rate_per_second) {
        Some(v) => v,
        None => return Err(ErrorCode::MathOverflow),
    };
    match per_item.checked_mul(staked_nfts) {
        Some(v) => Ok(v),
        None => Err(ErrorCode::MathOverflow),
    }
}

/// Accrual is monotonic: growing the elapsed time, the rate or the stake count
/// never shrinks a successfully computed reward.
pub proof fn lemma_accrue_monotonic(
    e1: int, e2: int, max_elapsed: int, r1: int, r2: int, s1: int, s2: int,
)
    requires
        0 <= e1 <= e2,
        0 <= r1 <= r2,
        0 <= s1 <= s2,
        spec_accrue(e1, max_elapsed, r1, s1) is Ok,
        spec_accrue(e2, max_elapsed, r2, s2) is Ok,
    ensures
        spec_accrue(e1, max_elapsed, r1, s1)->Ok_0 <= spec_accrue(e2, max_elapsed, r2, s2)->Ok_0,
{
    assert(e1 * r1 <= e2 * r2) by (nonlinear_arith)
        requires 0 <= e1 <= e2, 0 <= r1 <= r2;
    assert(e1 * r1 * s1 <= e2 * r2 * s2) by (nonlinear_arith)
        requires 0 <= e1 * r1 <= e2 * r2, 0 <= s1 <= s2;
}

/// Accrual never wraps: for an elapsed time inside the window, a product beyond
/// the range of `u64` is reported as an overflow.
pub proof fn lemma_accrue_overflow_fails(elapsed: int, max_elapsed: int, rate: int, staked: int)
    requires
        0 <= elapsed <= max_elapsed,
        0 <= rate,
        0 <= staked,
        elapsed * rate * staked > u64::MAX,
    ensures
        spec_accrue(elapsed, max_elapsed, rate, staked) == Err::<u64, ErrorCode>(ErrorCode::MathOverflow),
{
}

} // verus!
