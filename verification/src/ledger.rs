use crate::accounts::{ClaimRewards, Stake, Unstake};
use crate::state::{StakingInfo, StakingPool};
use anchor_lang::prelude::Pubkey;
use vstd::prelude::*;

verus! {

/// The sum of the principal of the given positions.
pub open spec fn staked_principal(positions: Map<Pubkey, StakingInfo>) -> nat
    decreases positions.dom().len(),
    when positions.dom().finite()
{
    if positions.dom().len() == 0 {
        0
    } else {
        let user = positions.dom().choose();
        positions[user].amount as nat + staked_principal(positions.remove(user))
    }
}

/// The records of one deployment as the record store keeps them: the pool,
/// and the open positions, at most one per user. The operations see one
/// position at a time; this is the whole they act on.
pub struct Ledger {
    /// The pool record.
    pub pool: StakingPool,
    /// The open positions, each under its owner.
    pub positions: Map<Pubkey, StakingInfo>,
}

/// One call of an operation that moves stake or settles rewards.
pub enum Call {
    /// `user` stakes `amount` at time `now`.
    Stake { user: Pubkey, amount: u64, now: i64 },
    /// `user` unstakes at time `now`.
    Unstake { user: Pubkey, now: i64 },
    /// `user` claims rewards at time `now`.
    ClaimRewards { user: Pubkey, now: i64 },
}

impl Ledger {
    /// The ledger right after the pool's creation: no position is open.
    pub open spec fn created(pool: StakingPool) -> Ledger {
        Ledger { pool, positions: Map::empty() }
    }

    /// The pool's total is the sum of the principal of the open positions,
    /// and every position is filed under its owner.
    pub open spec fn consistent(self) -> bool {
        &&& self.positions.dom().finite()
        &&& forall|user: Pubkey|
            self.positions.dom().contains(user) ==> (#[trigger] self.positions[user]).user == user
        &&& self.pool.total_staked == staked_principal(self.positions)
    }

    /// What the store hands to `stake` for `user`: the pool and a newly
    /// allocated position record. What that record holds is of no account,
    /// since `stake` fills in all of it.
    pub open spec fn stake_context(self, user: Pubkey) -> Stake {
        Stake { staking_pool: self.pool, staking_info: arbitrary(), user }
    }

    /// What the store hands to `unstake` for `user`: the pool and the user's
    /// position.
    pub open spec fn unstake_context(self, user: Pubkey) -> Unstake {
        Unstake { staking_pool: self.pool, staking_info: self.positions[user] }
    }

    /// What the store hands to `claim_rewards` for `user`: the pool and the
    /// user's position.
    pub open spec fn claim_context(self, user: Pubkey) -> ClaimRewards {
        ClaimRewards { staking_pool: self.pool, staking_info: self.positions[user] }
    }

    /// Whether a call goes through: the store can hand out what the operation
    /// works on, and the operation succeeds on it. The store refuses a second
    /// position for a user who has one, and has nothing to hand out for a
    /// user who has none.
    pub open spec fn accepts(self, call: Call) -> bool {
        match call {
            Call::Stake { user, amount, now } => !self.positions.dom().contains(user)
                && self.stake_context(user).outcome(amount, now) is Ok,
            Call::Unstake { user, now } => self.positions.dom().contains(user)
                && self.unstake_context(user).outcome(now) is Ok,
            Call::ClaimRewards { user, now } => self.positions.dom().contains(user)
                && self.claim_context(user).outcome(now) is Ok,
        }
    }

    /// The ledger after `user` calls `stake`: with the new position filed
    /// under the user if the call goes through, unchanged if not.
    pub open spec fn stake(self, user: Pubkey, amount: u64, now: i64) -> Ledger {
        match self.stake_context(user).outcome(amount, now) {
            Ok((after, _)) if !self.positions.dom().contains(user) => Ledger {
                pool: after.staking_pool,
                positions: self.positions.insert(user, after.staking_info),
            },
            _ => self,
        }
    }

    /// The ledger after `user` calls `unstake`: without the user's position
    /// if the call goes through, unchanged if not.
    pub open spec fn unstake(self, user: Pubkey, now: i64) -> Ledger {
        match self.unstake_context(user).outcome(now) {
            Ok((after, _)) if self.positions.dom().contains(user) => Ledger {
                pool: after.staking_pool,
                positions: self.positions.remove(user),
            },
            _ => self,
        }
    }

    /// The ledger after `user` calls `claim_rewards`: with the user's
    /// position as the call leaves it if the call goes through, unchanged if
    /// not.
    pub open spec fn claim_rewards(self, user: Pubkey, now: i64) -> Ledger {
        match self.claim_context(user).outcome(now) {
            Ok((after, _)) if self.positions.dom().contains(user) => Ledger {
                pool: after.staking_pool,
                positions: self.positions.insert(user, after.staking_info),
            },
            _ => self,
        }
    }

    /// The ledger after one call.
    pub open spec fn apply(self, call: Call) -> Ledger {
        match call {
            Call::Stake { user, amount, now } => self.stake(user, amount, now),
            Call::Unstake { user, now } => self.unstake(user, now),
            Call::ClaimRewards { user, now } => self.claim_rewards(user, now),
        }
    }

    /// The ledger after a sequence of calls, taken one after the other.
    pub open spec fn replay(self, calls: Seq<Call>) -> Ledger
        decreases calls.len(),
    {
        if calls.len() == 0 {
            self
        } else {
            self.replay(calls.drop_last()).apply(calls.last())
        }
    }
}

/// Taking one position out of a finite set of positions takes its principal
/// out of the sum, whichever position it is.
proof fn lemma_principal_without(positions: Map<Pubkey, StakingInfo>, user: Pubkey)
    requires
        positions.dom().finite(),
        positions.dom().contains(user),
    ensures
        staked_principal(positions) == positions[user].amount + staked_principal(
            positions.remove(user),
        ),
    decreases positions.dom().len(),
{
    let chosen = positions.dom().choose();
    if chosen != user {
        let rest = positions.remove(chosen);
        let others = positions.remove(user);
        lemma_principal_without(rest, user);
        lemma_principal_without(others, chosen);
        assert(rest.remove(user) =~= others.remove(chosen));
    }
}

/// Filing a position under `user` replaces what was filed there, in the sum
/// too.
proof fn lemma_principal_with(
    positions: Map<Pubkey, StakingInfo>,
    user: Pubkey,
    position: StakingInfo,
)
    requires
        positions.dom().finite(),
    ensures
        staked_principal(positions.insert(user, position)) == position.amount + staked_principal(
            positions.remove(user),
        ),
{
    lemma_principal_without(positions.insert(user, position), user);
    assert(positions.insert(user, position).remove(user) =~= positions.remove(user));
}

/// A newly created pool with no position open is consistent.
pub proof fn lemma_created_ledger_is_consistent(
    authority: Pubkey,
    reward_rate: u64,
    lock_period: i64,
    now: i64,
)
    ensures
        Ledger::created(
            StakingPool::created(authority, reward_rate, lock_period, now),
        ).consistent(),
{
}

/// Whatever a call does, whether it succeeds, fails or is refused, it leaves
/// a consistent ledger consistent: the pool's total stays the sum of the
/// principal of the open positions.
pub proof fn lemma_call_keeps_ledger_consistent(ledger: Ledger, call: Call)
    requires
        ledger.consistent(),
    ensures
        ledger.apply(call).consistent(),
{
    match call {
        Call::Stake { user, amount, now } => {
            if !ledger.positions.dom().contains(user) {
                lemma_principal_with(ledger.positions, user, StakingInfo::opened(user, amount, now));
                assert(ledger.positions.remove(user) =~= ledger.positions);
            }
        },
        Call::Unstake { user, now } => {
            if ledger.positions.dom().contains(user) {
                lemma_principal_without(ledger.positions, user);
            }
        },
        Call::ClaimRewards { user, now } => {
            if ledger.positions.dom().contains(user) {
                lemma_principal_without(ledger.positions, user);
                lemma_principal_with(ledger.positions, user, ledger.positions[user].settled(now));
            }
        },
    }
}

/// After any sequence of calls on a consistent ledger, the pool's total is
/// the sum of the principal of the positions then open.
pub proof fn lemma_total_staked_is_sum_of_positions(ledger: Ledger, calls: Seq<Call>)
    requires
        ledger.consistent(),
    ensures
        ledger.replay(calls).consistent(),
        ledger.replay(calls).pool.total_staked == staked_principal(ledger.replay(calls).positions),
    decreases calls.len(),
{
    if calls.len() > 0 {
        lemma_total_staked_is_sum_of_positions(ledger, calls.drop_last());
        lemma_call_keeps_ledger_consistent(ledger.replay(calls.drop_last()), calls.last());
    }
}

/// No call touches the pool's configuration: authority, reward rate, lock
/// period and creation time stay as they were when the pool was created.
pub proof fn lemma_calls_keep_pool_configuration(ledger: Ledger, calls: Seq<Call>)
    ensures
        ledger.replay(calls).pool == ledger.pool.with_total_staked(
            ledger.replay(calls).pool.total_staked,
        ),
    decreases calls.len(),
{
    if calls.len() > 0 {
        lemma_calls_keep_pool_configuration(ledger, calls.drop_last());
    }
}

/// A position that is open before and after a call still has its owner, its
/// principal and its start time, and its last claim has not moved back.
pub proof fn lemma_call_keeps_position_terms(ledger: Ledger, call: Call, user: Pubkey)
    requires
        ledger.positions.dom().contains(user),
        ledger.apply(call).positions.dom().contains(user),
    ensures
        ledger.apply(call).positions[user].user == ledger.positions[user].user,
        ledger.apply(call).positions[user].amount == ledger.positions[user].amount,
        ledger.apply(call).positions[user].start_time == ledger.positions[user].start_time,
        ledger.apply(call).positions[user].last_claim_time
            >= ledger.positions[user].last_claim_time,
{
}

/// A call that does not go through, because the operation fails or because
/// the store refuses it, leaves the pool and every position as they were.
pub proof fn lemma_failed_call_changes_nothing(ledger: Ledger, call: Call)
    requires
        !ledger.accepts(call),
    ensures
        ledger.apply(call) == ledger,
{
}

/// While a user's position is open, a second `stake` by the same user does
/// not go through, whatever the amount: the pool's total and every position
/// stay as they were.
pub proof fn lemma_second_stake_is_refused(ledger: Ledger, user: Pubkey, amount: u64, now: i64)
    requires
        ledger.positions.dom().contains(user),
    ensures
        !ledger.accepts((Call::Stake { user, amount, now })),
        ledger.stake(user, amount, now) == ledger,
{
}

} // verus!
