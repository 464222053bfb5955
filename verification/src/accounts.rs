use crate::state::{StakingInfo, StakingPool};
use anchor_lang::prelude::Pubkey;
use vstd::prelude::*;

verus! {

/// What `initialize_staking` works on.
#[derive(Clone, Copy, Debug, PartialEq, Eq)]
pub struct InitializeStaking {
    /// The newly allocated pool record, to be filled in.
    pub staking_pool: StakingPool,
    /// The caller, who becomes the pool's authority.
    pub authority: Pubkey,
}

/// What `stake` works on.
#[derive(Clone, Copy, Debug, PartialEq, Eq)]
pub struct Stake {
    /// The pool.
    pub staking_pool: StakingPool,
    /// The newly allocated position record, to be filled in.
    pub staking_info: StakingInfo,
    /// The staking user.
    pub user: Pubkey,
}

/// What `unstake` works on.
#[derive(Clone, Copy, Debug, PartialEq, Eq)]
pub struct Unstake {
    /// The pool.
    pub staking_pool: StakingPool,
    /// The caller's position.
    pub staking_info: StakingInfo,
}

/// What `claim_rewards` works on.
#[derive(Clone, Copy, Debug, PartialEq, Eq)]
pub struct ClaimRewards {
    /// The pool.
    pub staking_pool: StakingPool,
    /// The caller's position.
    pub staking_info: StakingInfo,
}

} // verus!
