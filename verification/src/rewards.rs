use crate::error::StakingError;
use crate::state::StakingInfo;
use vstd::prelude::*;

verus! {

/// The reward a position of `amount` tokens has accrued between
/// `last_claim_time` and `current_time` at `reward_rate` units per token per
/// second: `amount * reward_rate * (current_time - last_claim_time)`.
///
/// There is no such reward where the clock reading is before the last claim,
/// where the elapsed time does not fit a timestamp, or where the rate per
/// second `amount * reward_rate` or the full product does not fit in `u64`.
pub open spec fn accrued_rewards(
    amount: u64,
    last_claim_time: i64,
    current_time: i64,
    reward_rate: u64,
) -> Option<u64> {
    let time_staked = current_time - last_claim_time;
    let computable = {
        &&& 0 <= time_staked <= i64::MAX
        &&& amount * reward_rate <= u64::MAX
        &&& amount * reward_rate * time_staked <= u64::MAX
    };
    if computable {
        Some((amount * reward_rate * time_staked) as u64)
    } else {
        None
    }
}

impl StakingInfo {
    /// The reward this position has accrued at time `now` since its last
    /// claim, at `reward_rate` units per token per second, if there is one.
    pub open spec fn accrued(self, reward_rate: u64, now: i64) -> Option<u64> {
        accrued_rewards(self.amount, self.last_claim_time, now, reward_rate)
    }
}

/// Computes the reward accrued since the last claim. Accrual is linear: no
/// rounding, no compounding. Every step is checked, and any step that leaves
/// its range fails the whole computation with `ArithmeticOverflow`.
pub fn calculate_rewards(
    amount: u64,
    last_claim_time: i64,
    current_time: i64,
    reward_rate: u64,
) -> (result: Result<u64, StakingError>)
    ensures
        result == (match accrued_rewards(amount, last_claim_time, current_time, reward_rate) {
            Some(rewards) => Ok::<u64, StakingError>(rewards),
            None => Err(StakingError::ArithmeticOverflow),
        }),
        result matches Ok(rewards) ==> rewards == amount * reward_rate * (current_time
            - last_claim_time),
        result is Ok <==> (last_claim_time <= current_time
            && current_time - last_claim_time <= i64::MAX
            && amount * reward_rate <= u64::MAX
            && amount * reward_rate * (current_time - last_claim_time) <= u64::MAX),
{
    let time_staked: i64 = match current_time.checked_sub(last_claim_time) {
        Some(elapsed) => elapsed,
        None => return Err(StakingError::ArithmeticOverflow),
    };
    if time_staked < 0 {
        return Err(StakingError::ArithmeticOverflow);
    }
    let per_second: u64 = match amount.checked_mul(reward_rate) {
        Some(product) => product,
        None => return Err(StakingError::ArithmeticOverflow),
    };
    match per_second.checked_mul(time_staked as u64) {
        Some(rewards) => Ok(rewards),
        None => Err(StakingError::ArithmeticOverflow),
    }
}

/// Accrual is linear in time: settling at some moment in between and again
/// at the end pays, in sum, what settling once at the end pays. Where the
/// reward for the whole span can be computed, so can both parts.
pub proof fn lemma_rewards_add_up(
    amount: u64,
    reward_rate: u64,
    start: i64,
    between: i64,
    end: i64,
)
    requires
        start <= between <= end,
        accrued_rewards(amount, start, end, reward_rate) is Some,
    ensures
        accrued_rewards(amount, start, between, reward_rate) is Some,
        accrued_rewards(amount, between, end, reward_rate) is Some,
        accrued_rewards(amount, start, between, reward_rate)->Some_0 + accrued_rewards(
            amount,
            between,
            end,
            reward_rate,
        )->Some_0 == accrued_rewards(amount, start, end, reward_rate)->Some_0,
{
    let per_second = amount * reward_rate;
    let first = between - start;
    let second = end - between;
    assert(per_second * (first + second) == per_second * first + per_second * second
        && per_second * first >= 0 && per_second * second >= 0) by (nonlinear_arith)
        requires
            per_second >= 0,
            first >= 0,
            second >= 0,
    ;
}

} // verus!
