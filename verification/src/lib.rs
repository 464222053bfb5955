//! The rules of a token-staking ledger: users lock tokens into a shared pool,
//! accrue rewards in proportion to time at a fixed rate, claim them at any
//! time and withdraw their principal once a lock period is over.
//!
//! The operations work on plain records and are given the time. They decide
//! what changes and which tokens move, and leave the moving of tokens, the
//! keeping of records and the reading of the clock to the platform around
//! them.

/// What each operation works on.
pub mod accounts;
/// How an operation can fail.
pub mod error;
/// The four operations.
pub mod instructions;
/// The pool together with all open positions, and what holds of them.
pub mod ledger;
/// The reward calculator.
pub mod rewards;
/// The stored records.
pub mod state;
/// Token movements, as the operations order them.
pub mod transfer;

pub use crate::accounts::{ClaimRewards, InitializeStaking, Stake, Unstake};
pub use crate::error::StakingError;
pub use crate::instructions::{claim_rewards, initialize_staking, stake, unstake};
pub use crate::rewards::calculate_rewards;
pub use crate::state::{StakingInfo, StakingPool};
pub use crate::transfer::{Party, Settlement, TransferOrder};
