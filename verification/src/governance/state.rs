//! Governance accounts and voting weight.
use vstd::prelude::*;

use crate::address::Address;
use crate::governance::constants::TIER_VOTE_MULT;
use crate::governance::errors::GovError;
use crate::staking::state::StakeAccount;

verus! {

/// The governance program's global configuration.
#[derive(Clone, Copy, Debug)]
pub struct GovConfig {
    pub admin: Address,
    /// The staking program whose stake accounts define voting weight.
    pub staking_program: Address,
    pub proposal_count: u64,
    pub voting_period_secs: i64,
    /// Minimum voting weight required to create a proposal.
    pub min_weight_to_propose: u64,
    pub bump: u8,
}

/// A proposal and its running tally.
#[derive(Debug)]
pub struct Proposal {
    pub id: u64,
    pub proposer: Address,
    pub title: String,
    pub summary: String,
    pub created_at: i64,
    pub voting_ends: i64,
    pub yes_weight: u64,
    pub no_weight: u64,
    pub status: u8,
    pub bump: u8,
}

/// One per (proposal, voter): once recorded, the voter cannot vote on the
/// proposal again.
#[derive(Clone, Copy, Debug)]
pub struct VoteRecord {
    /// Whether this voter has voted on this proposal; set by `cast_vote`.
    pub is_recorded: bool,
    pub proposal: Address,
    pub voter: Address,
    pub choice: u8,
    pub weight: u64,
    pub bump: u8,
}

/// The vote multiplier of staking tier `tier`, in percent.
pub open spec fn tier_vote_mult(tier: int) -> int {
    TIER_VOTE_MULT@[tier] as int
}

/// Voting weight of a stake: principal times the tier's multiplier, in
/// percent, rounded down.
pub open spec fn vote_weight(amount: int, tier: int) -> int {
    amount * tier_vote_mult(tier) / 100
}

/// The outcome of `stake_weight`.
pub open spec fn stake_weight_result(stake: StakeAccount) -> Result<u64, GovError> {
    if stake.tier >= 3 {
        Err(GovError::BadStakeData)
    } else if vote_weight(stake.amount as int, stake.tier as int) > u64::MAX {
        Err(GovError::MathOverflow)
    } else {
        Ok(vote_weight(stake.amount as int, stake.tier as int) as u64)
    }
}

/// Voting weight of a stake (see `vote_weight`); `BadStakeData` for an
/// unknown tier, `MathOverflow` when the weight does not fit in a `u64`.
pub fn stake_weight(stake: &StakeAccount) -> (r: Result<u64, GovError>)
    ensures
        r == stake_weight_result(*stake),
{
    let tier = stake.tier as usize;
    if tier >= 3 {
        return Err(GovError::BadStakeData);
    }
    let mult = TIER_VOTE_MULT[tier];
    proof {
        assert(0 <= (stake.amount as int) * (mult as int) <= (u64::MAX as int) * 200)
            by (nonlinear_arith)
            requires mult <= 200;
    }
    let w = (stake.amount as u128) * (mult as u128) / 100;
    if w > u64::MAX as u128 {
        return Err(GovError::MathOverflow);
    }
    Ok(w as u64)
}

} // verus!
