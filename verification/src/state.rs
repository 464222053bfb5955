use anchor_lang::prelude::Pubkey;
use vstd::prelude::*;

verus! {

/// The identity type of the ledger platform, `anchor_lang::prelude::Pubkey`.
/// It is carried through as an opaque value: nothing here looks inside a key,
/// and no claim is made about how keys are built or compared.
#[verifier::external_type_specification]
#[verifier::external_body]
pub struct ExPubkey(anchor_lang::prelude::Pubkey);

/// Pool-wide configuration and the running total of staked principal. One
/// pool exists per deployment.
#[derive(Clone, Copy, Debug, PartialEq, Eq)]
pub struct StakingPool {
    /// Who created the pool.
    pub authority: Pubkey,
    /// Reward units accrued per staked token per second.
    pub reward_rate: u64,
    /// Seconds a stake must remain before its principal can be withdrawn.
    pub lock_period: i64,
    /// Sum of the principal of all open positions.
    pub total_staked: u64,
    /// When the pool was created.
    pub last_update_time: i64,
}

impl StakingPool {
    /// Bytes one stored pool record takes.
    pub const LEN: usize = 32 + 8 + 8 + 8 + 8;

    /// The pool as it stands right after its creation at time `now`: nothing
    /// staked yet.
    pub open spec fn created(
        authority: Pubkey,
        reward_rate: u64,
        lock_period: i64,
        now: i64,
    ) -> StakingPool {
        StakingPool { authority, reward_rate, lock_period, total_staked: 0, last_update_time: now }
    }

    /// This pool with `total` as its staked total and nothing else changed.
    pub open spec fn with_total_staked(self, total: u64) -> StakingPool {
        StakingPool { total_staked: total, ..self }
    }
}

/// One user's open position.
#[derive(Clone, Copy, Debug, PartialEq, Eq)]
pub struct StakingInfo {
    /// Who owns the position.
    pub user: Pubkey,
    /// Principal staked.
    pub amount: u64,
    /// When the stake began; the lock period counts from here.
    pub start_time: i64,
    /// When rewards were last settled; accrual counts from here.
    pub last_claim_time: i64,
}

impl StakingInfo {
    /// Bytes one stored position record takes.
    pub const LEN: usize = 32 + 8 + 8 + 8;

    /// The position that `user` opens by staking `amount` at time `now`.
    pub open spec fn opened(user: Pubkey, amount: u64, now: i64) -> StakingInfo {
        StakingInfo { user, amount, start_time: now, last_claim_time: now }
    }

    /// This position with its rewards settled up to `now`.
    pub open spec fn settled(self, now: i64) -> StakingInfo {
        StakingInfo { last_claim_time: now, ..self }
    }

    /// Whether the principal may be withdrawn at time `now` under a lock of
    /// `lock_period` seconds: the lock runs out at `start_time + lock_period`,
    /// and the boundary itself counts as elapsed.
    pub open spec fn unlocked(self, lock_period: i64, now: i64) -> bool {
        now >= self.start_time + lock_period
    }
}

} // verus!
