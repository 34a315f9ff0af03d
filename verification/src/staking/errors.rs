//! Errors of the staking program.
use vstd::prelude::*;

verus! {

/// Why a staking instruction was refused.
#[derive(Clone, Copy, Debug, PartialEq, Eq, Structural)]
pub enum StakingError {
    /// Only the admin (or the stake's owner) can perform this action.
    Unauthorized,
    /// Staking is paused.
    Paused,
    /// Invalid tier.
    InvalidTier,
    /// The stake amount is below the minimum.
    BelowMinimum,
    /// The amount must be greater than zero.
    ZeroAmount,
    /// The account already has an active stake (or the reward vault is
    /// already set).
    AlreadyStaked,
    /// No active stake was found.
    NoStake,
    /// The reward vault does not hold enough SLAM to cover the reward.
    InsufficientRewards,
    /// Arithmetic overflow.
    MathOverflow,
    /// Arithmetic underflow.
    MathUnderflow,
}

} // verus!
