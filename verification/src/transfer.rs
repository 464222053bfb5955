use vstd::prelude::*;

verus! {

/// The two sides of every token movement.
#[derive(Clone, Copy, Debug, PartialEq, Eq, Structural)]
pub enum Party {
    /// The staking user: their token balance, or their signature.
    User,
    /// The pool: its custody balance, or its own authority over it.
    Pool,
}

/// A token movement for the transfer service to carry out. The operations
/// decide on movements; they never move tokens themselves.
#[derive(Clone, Copy, Debug, PartialEq, Eq, Structural)]
pub struct TransferOrder {
    /// Whose balance is debited.
    pub from: Party,
    /// Whose balance is credited.
    pub to: Party,
    /// Who authorises the movement.
    pub authority: Party,
    /// How many tokens move.
    pub amount: u64,
}

impl TransferOrder {
    /// `amount` tokens from the user into custody, signed by the user.
    pub open spec fn deposit(amount: u64) -> TransferOrder {
        TransferOrder { from: Party::User, to: Party::Pool, authority: Party::User, amount }
    }

    /// `amount` tokens out of custody to the user, on the pool's authority.
    pub open spec fn payout(amount: u64) -> TransferOrder {
        TransferOrder { from: Party::Pool, to: Party::User, authority: Party::Pool, amount }
    }
}

/// What remains to be done once a withdrawal has been granted: two separate
/// movements, the reward first and the principal second, and then the end of
/// the position record.
#[derive(Clone, Copy, Debug, PartialEq, Eq, Structural)]
pub struct Settlement {
    /// The reward accrued since the last claim.
    pub rewards: TransferOrder,
    /// The staked principal, in full.
    pub principal: TransferOrder,
    /// Who receives the storage deposit of the position record when the
    /// record store destroys it.
    pub refund_to: Party,
}

impl Settlement {
    /// The settlement that pays `rewards` and returns `principal` to the
    /// user, who also receives the deposit of the destroyed record.
    pub open spec fn closing(rewards: u64, principal: u64) -> Settlement {
        Settlement {
            rewards: TransferOrder::payout(rewards),
            principal: TransferOrder::payout(principal),
            refund_to: Party::User,
        }
    }
}

} // verus!
