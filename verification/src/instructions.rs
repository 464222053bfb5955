use crate::accounts::{ClaimRewards, InitializeStaking, Stake, Unstake};
use crate::error::StakingError;
use crate::rewards::calculate_rewards;
use crate::state::{StakingInfo, StakingPool};
use crate::transfer::{Party, Settlement, TransferOrder};
use vstd::prelude::*;

verus! {

impl Stake {
    /// What staking `amount` at time `now` comes to: the context afterwards
    /// and the movement that takes the tokens into custody, or
    /// `ArithmeticOverflow` where the pool's total would leave `u64`.
    pub open spec fn outcome(self, amount: u64, now: i64) -> Result<
        (Stake, TransferOrder),
        StakingError,
    > {
        if self.staking_pool.total_staked + amount <= u64::MAX {
            Ok(
                (
                    Stake {
                        staking_pool: self.staking_pool.with_total_staked(
                            (self.staking_pool.total_staked + amount) as u64,
                        ),
                        staking_info: StakingInfo::opened(self.user, amount, now),
                        user: self.user,
                    },
                    TransferOrder::deposit(amount),
                ),
            )
        } else {
            Err(StakingError::ArithmeticOverflow)
        }
    }
}

impl Unstake {
    /// What unstaking at time `now` comes to: the context afterwards and the
    /// settlement that pays the reward, returns the principal and ends the
    /// position, or
    /// `LockPeriodNotOver` while the position is locked, or
    /// `ArithmeticOverflow` where the reward cannot be computed or the pool's
    /// total is smaller than the principal.
    pub open spec fn outcome(self, now: i64) -> Result<(Unstake, Settlement), StakingError> {
        if !self.staking_info.unlocked(self.staking_pool.lock_period, now) {
            Err(StakingError::LockPeriodNotOver)
        } else if self.staking_info.accrued(self.staking_pool.reward_rate, now) is Some
            && self.staking_pool.total_staked >= self.staking_info.amount {
            Ok(
                (
                    Unstake {
                        staking_pool: self.staking_pool.with_total_staked(
                            (self.staking_pool.total_staked - self.staking_info.amount) as u64,
                        ),
                        staking_info: self.staking_info,
                    },
                    Settlement::closing(
                        self.staking_info.accrued(self.staking_pool.reward_rate, now)->Some_0,
                        self.staking_info.amount,
                    ),
                ),
            )
        } else {
            Err(StakingError::ArithmeticOverflow)
        }
    }
}

impl ClaimRewards {
    /// What claiming at time `now` comes to: the context afterwards and the
    /// movement that pays the reward, or `ArithmeticOverflow` where the
    /// reward cannot be computed.
    pub open spec fn outcome(self, now: i64) -> Result<(ClaimRewards, TransferOrder), StakingError> {
        match self.staking_info.accrued(self.staking_pool.reward_rate, now) {
            Some(rewards) => Ok(
                (
                    ClaimRewards {
                        staking_pool: self.staking_pool,
                        staking_info: self.staking_info.settled(now),
                    },
                    TransferOrder::payout(rewards),
                ),
            ),
            None => Err(StakingError::ArithmeticOverflow),
        }
    }
}

/// Creates the pool at time `now`: the caller becomes its authority, the
/// rate and the lock period are taken as given (zero included), and nothing
/// is staked yet. This step itself cannot fail.
pub fn initialize_staking(
    ctx: &mut InitializeStaking,
    reward_rate: u64,
    lock_period: i64,
    now: i64,
) -> (result: Result<(), StakingError>)
    ensures
        result is Ok,
        final(ctx).staking_pool == StakingPool::created(
            old(ctx).authority,
            reward_rate,
            lock_period,
            now,
        ),
        final(ctx).authority == old(ctx).authority,
{
    ctx.staking_pool.authority = ctx.authority;
    ctx.staking_pool.reward_rate = reward_rate;
    ctx.staking_pool.lock_period = lock_period;
    ctx.staking_pool.total_staked = 0;
    ctx.staking_pool.last_update_time = now;
    Ok(())
}

/// Opens a position of `amount` tokens for the user at time `now` and adds
/// the amount to the pool's total. A zero amount is accepted. The caller
/// carries out the returned movement, which takes the tokens from the user
/// into custody.
///
/// Fails with `ArithmeticOverflow` where the pool's total would leave `u64`.
/// A failure changes nothing.
pub fn stake(ctx: &mut Stake, amount: u64, now: i64) -> (result: Result<
    TransferOrder,
    StakingError,
>)
    ensures
        (match old(ctx).outcome(amount, now) {
            Ok((after, order)) => result == Ok::<TransferOrder, StakingError>(order) && *final(ctx)
                == after,
            Err(error) => result == Err::<TransferOrder, StakingError>(error) && *final(ctx)
                == *old(ctx),
        }),
        result is Ok <==> old(ctx).staking_pool.total_staked + amount <= u64::MAX,
{
    let total: u64 = match ctx.staking_pool.total_staked.checked_add(amount) {
        Some(total) => total,
        None => return Err(StakingError::ArithmeticOverflow),
    };
    ctx.staking_info.user = ctx.user;
    ctx.staking_info.amount = amount;
    ctx.staking_info.start_time = now;
    ctx.staking_info.last_claim_time = now;
    ctx.staking_pool.total_staked = total;
    Ok(TransferOrder { from: Party::User, to: Party::Pool, authority: Party::User, amount })
}

/// Closes the caller's position at time `now`: settles the reward accrued
/// since the last claim, returns the principal and takes it off the pool's
/// total. The caller carries out the two movements in the order given, the
/// reward first, and then has the position record destroyed, its storage
/// deposit going to the user.
///
/// Fails with `LockPeriodNotOver` before `start_time + lock_period`, and with
/// `ArithmeticOverflow` where the reward cannot be computed or the pool's
/// total is smaller than the principal. A failure changes nothing.
pub fn unstake(ctx: &mut Unstake, now: i64) -> (result: Result<Settlement, StakingError>)
    ensures
        (match old(ctx).outcome(now) {
            Ok((after, settlement)) => result == Ok::<Settlement, StakingError>(settlement)
                && *final(ctx) == after,
            Err(error) => result == Err::<Settlement, StakingError>(error) && *final(ctx) == *old(
                ctx,
            ),
        }),
        result == Err::<Settlement, StakingError>(StakingError::LockPeriodNotOver)
            <==> now < old(ctx).staking_info.start_time + old(ctx).staking_pool.lock_period,
{
    if (now as i128) < ctx.staking_info.start_time as i128 + ctx.staking_pool.lock_period as i128 {
        return Err(StakingError::LockPeriodNotOver);
    }
    let rewards: u64 = match calculate_rewards(
        ctx.staking_info.amount,
        ctx.staking_info.last_claim_time,
        now,
        ctx.staking_pool.reward_rate,
    ) {
        Ok(rewards) => rewards,
        Err(error) => return Err(error),
    };
    let remaining: u64 = match ctx.staking_pool.total_staked.checked_sub(ctx.staking_info.amount) {
        Some(remaining) => remaining,
        None => return Err(StakingError::ArithmeticOverflow),
    };
    ctx.staking_pool.total_staked = remaining;
    Ok(
        Settlement {
            rewards: TransferOrder {
                from: Party::Pool,
                to: Party::User,
                authority: Party::Pool,
                amount: rewards,
            },
            principal: TransferOrder {
                from: Party::Pool,
                to: Party::User,
                authority: Party::Pool,
                amount: ctx.staking_info.amount,
            },
            refund_to: Party::User,
        },
    )
}

/// Settles the reward the caller's position has accrued up to time `now`,
/// whether or not the lock period is over, and restarts accrual from `now`.
/// Principal and start time stay as they are. The caller carries out the
/// returned movement, which pays the reward out of custody.
///
/// Fails with `ArithmeticOverflow` where the reward cannot be computed. A
/// failure changes nothing.
pub fn claim_rewards(ctx: &mut ClaimRewards, now: i64) -> (result: Result<
    TransferOrder,
    StakingError,
>)
    ensures
        (match old(ctx).outcome(now) {
            Ok((after, order)) => result == Ok::<TransferOrder, StakingError>(order) && *final(ctx)
                == after,
            Err(error) => result == Err::<TransferOrder, StakingError>(error) && *final(ctx)
                == *old(ctx),
        }),
        result is Ok ==> final(ctx).staking_info.last_claim_time >= old(
            ctx,
        ).staking_info.last_claim_time,
{
    let rewards: u64 = match calculate_rewards(
        ctx.staking_info.amount,
        ctx.staking_info.last_claim_time,
        now,
        ctx.staking_pool.reward_rate,
    ) {
        Ok(rewards) => rewards,
        Err(error) => return Err(error),
    };
    ctx.staking_info.last_claim_time = now;
    Ok(TransferOrder { from: Party::Pool, to: Party::User, authority: Party::Pool, amount: rewards })
}

} // verus!
