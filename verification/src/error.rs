use vstd::prelude::*;

verus! {

/// The ways a staking operation can fail on its own account. Failures of the
/// services around the ledger (token transfers, record storage, the clock)
/// are theirs to report.
#[derive(Clone, Copy, Debug, PartialEq, Eq, Structural)]
pub enum StakingError {
    /// The position is still inside its lock period.
    LockPeriodNotOver,
    /// A checked computation left the range of its integer type, or the
    /// clock ran backwards.
    ArithmeticOverflow,
}

} // verus!
