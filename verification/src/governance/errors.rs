//! Errors of the governance program.
use vstd::prelude::*;

verus! {

/// Why a governance instruction was refused.
#[derive(Clone, Copy, Debug, PartialEq, Eq, Structural)]
pub enum GovError {
    /// Only the admin can perform this action.
    Unauthorized,
    /// The stake account is not owned by the configured staking program.
    WrongStakeProgram,
    /// The stake account does not belong to this signer.
    StakeOwnerMismatch,
    /// The stake account data is malformed.
    BadStakeData,
    /// Staked SLAM is needed to do this.
    NoVotingPower,
    /// Below the minimum voting power required to create a proposal.
    BelowProposalThreshold,
    /// The title or summary is too long.
    TextTooLong,
    /// The proposal is not active.
    NotActive,
    /// Voting has closed.
    VotingClosed,
    /// Voting is still open.
    VotingOpen,
    /// Invalid vote choice.
    InvalidChoice,
    /// Arithmetic overflow.
    MathOverflow,
    /// The voting period must be between 1 hour and 30 days.
    InvalidVotingPeriod,
    /// The stake was created after the proposal opened, so it cannot vote on
    /// it.
    StakeTooNew,
    /// This voter has already voted on this proposal.
    AlreadyVoted,
}

} // verus!
