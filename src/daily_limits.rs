use vstd::prelude::*;

verus! {

/// Length of the quota window, in seconds.
pub const SECONDS_PER_DAY: i64 = 86400;

/// Per-vault quotas on stakes, claims and reward payout, reset once more than
/// a day has passed since the last reset.
#[derive(Clone, Copy, Debug, PartialEq, Eq, Structural)]
pub struct DailyLimits {
    pub max_stakes_per_day: u32,
    pub max_claims_per_day: u32,
    pub max_total_rewards_per_day: u64,
    pub stakes_today: u32,
    pub claims_today: u32,
    pub rewards_claimed_today: u64,
    pub last_reset_timestamp: i64,
}

impl DailyLimits {
    /// The quotas as they stand at `now`, after a reset if a new window began.
    pub open spec fn reset_at(self, now: int) -> DailyLimits {
        if now - self.last_reset_timestamp > SECONDS_PER_DAY {
            DailyLimits {
                stakes_today: 0,
                claims_today: 0,
                rewards_claimed_today: 0,
                last_reset_timestamp: now as i64,
                ..self
            }
        } else {
            self
        }
    }

    pub open spec fn allows_stake(self) -> bool {
        self.stakes_today < self.max_stakes_per_day
    }

    pub open spec fn allows_claim(self, amount: int) -> bool {
        self.claims_today < self.max_claims_per_day
            && self.rewards_claimed_today + amount <= self.max_total_rewards_per_day
    }

    pub open spec fn after_stake(self) -> DailyLimits {
        DailyLimits { stakes_today: (self.stakes_today + 1) as u32, ..self }
    }

    pub open spec fn after_claim(self, amount: int) -> DailyLimits {
        DailyLimits {
            claims_today: (self.claims_today + 1) as u32,
            rewards_claimed_today: (self.rewards_claimed_today + amount) as u64,
            ..self
        }
    }

    /// The quotas after `n` recorded stakes.
    pub open spec fn after_stakes(self, n: nat) -> DailyLimits
        decreases n,
    {
        if n == 0 {
            self
        } else {
            self.after_stakes((n - 1) as nat).after_stake()
        }
    }

    /// The default quotas: 100 stakes, 50 claims and 10^9 reward units a day.
    pub fn new() -> (r: DailyLimits)
        ensures
            r.max_stakes_per_day == 100,
            r.max_claims_per_day == 50,
            r.max_total_rewards_per_day == 1_000_000_000,
            r.stakes_today == 0,
            r.claims_today == 0,
            r.rewards_claimed_today == 0,
            r.last_reset_timestamp == 0,
    {
        DailyLimits {
            max_stakes_per_day: 100,
            max_claims_per_day: 50,
            max_total_rewards_per_day: 1_000_000_000,
            stakes_today: 0,
            claims_today: 0,
            rewards_claimed_today: 0,
            last_reset_timestamp: 0,
        }
    }

    /// Zeroes the day's counters and stamps `current_timestamp` when more than
    /// a day has passed since the last reset.
    pub fn reset_if_new_day(&mut self, current_timestamp: i64)
        ensures
            *final(self) == old(self).reset_at(current_timestamp as int),
            current_timestamp - old(self).last_reset_timestamp > SECONDS_PER_DAY ==> {
                &&& final(self).stakes_today == 0
                &&& final(self).claims_today == 0
                &&& final(self).rewards_claimed_today == 0
                &&& final(self).last_reset_timestamp == current_timestamp
            },
    {
        if self.last_reset_timestamp <= i64::MAX - SECONDS_PER_DAY
            && current_timestamp > self.last_reset_timestamp + SECONDS_PER_DAY {
            self.stakes_today = 0;
            self.claims_today = 0;
            self.rewards_claimed_today = 0;
            self.last_reset_timestamp = current_timestamp;
        }
    }

    pub fn can_stake(&self) -> (r: bool)
        ensures
            r == self.allows_stake(),
    {
        self.stakes_today < self.max_stakes_per_day
    }

    pub fn can_claim(&self, reward_amount: u64) -> (r: bool)
        ensures
            r == self.allows_claim(reward_amount as int),
    {
        self.claims_today < self.max_claims_per_day
            && self.rewards_claimed_today <= self.max_total_rewards_per_day
            && reward_amount <= self.max_total_rewards_per_day - self.rewards_claimed_today
    }

    /// Counts a stake; only called once a stake that `can_stake` allowed has succeeded.
    pub fn record_stake(&mut self)
        requires
            old(self).allows_stake(),
        ensures
            *final(self) == old(self).after_stake(),
    {
        self.stakes_today = self.stakes_today + 1;
    }

    /// Counts a claim of `reward_amount`; only called once a claim that
    /// `can_claim` allowed has succeeded.
    pub fn record_claim(&mut self, reward_amount: u64)
        requires
            old(self).allows_claim(reward_amount as int),
        ensures
            *final(self) == old(self).after_claim(reward_amount as int),
    {
        self.claims_today = self.claims_today + 1;
        self.rewards_claimed_today = self.rewards_claimed_today + reward_amount;
    }
}

proof fn lemma_after_stakes(l: DailyLimits, n: nat)
    requires
        l.stakes_today + n <= u32::MAX,
    ensures
        l.after_stakes(n) == (DailyLimits { stakes_today: (l.stakes_today + n) as u32, ..l }),
    decreases n,
{
    if n > 0 {
        lemma_after_stakes(l, (n - 1) as nat);
    }
}

/// Within one window, each of the first `max_stakes_per_day` stakes is allowed
/// and, once they are recorded, the next one is not.
pub proof fn lemma_daily_stake_quota(l: DailyLimits, k: nat)
    requires
        l.stakes_today == 0,
    ensures
        k < l.max_stakes_per_day ==> l.after_stakes(k).allows_stake(),
        !l.after_stakes(l.max_stakes_per_day as nat).allows_stake(),
{
    lemma_after_stakes(l, l.max_stakes_per_day as nat);
    if k < l.max_stakes_per_day {
        lemma_after_stakes(l, k);
    }
}

} // verus!
