//! The staking configuration, a stake, and the reward rule.
use vstd::prelude::*;

use crate::address::Address;
use crate::staking::constants::{BPS_DENOMINATOR, NUM_TIERS, SECONDS_PER_YEAR, TIER_APY_BPS};
use crate::staking::errors::StakingError;

verus! {

/// The staking program's global configuration.
#[derive(Clone, Copy, Debug)]
pub struct StakingConfig {
    pub admin: Address,
    pub slam_mint: Address,
    /// Program-owned token account holding all staked principal.
    pub stake_vault: Address,
    /// Program-owned token account holding reward tokens; zero until
    /// `init_rewards`.
    pub reward_vault: Address,
    pub total_staked: u64,
    pub is_paused: bool,
    pub bump: u8,
    pub vault_authority_bump: u8,
}

/// One wallet's stake.
#[derive(Clone, Copy, Debug)]
pub struct StakeAccount {
    /// Whether the stake is open: set by `stake`, cleared by `unstake`. A
    /// wallet holds at most one open stake.
    pub is_active: bool,
    pub owner: Address,
    /// Principal currently staked, in base units.
    pub amount: u64,
    /// 0 = Flexible, 1 = 6-month, 2 = 12-month.
    pub tier: u8,
    pub staked_at: i64,
    /// `staked_at` plus the tier's lock; 0 for Flexible.
    pub lock_end: i64,
    /// Rewards accrue from this timestamp (set by `stake` and every `claim`).
    pub last_claim: i64,
    /// Cumulative rewards claimed.
    pub reward_claimed: u64,
    pub bump: u8,
}

/// The APY of `tier`, in basis points.
pub open spec fn tier_apy(tier: int) -> int {
    TIER_APY_BPS@[tier] as int
}

/// The exact product `amount * apy_bps * elapsed` that the reward divides.
pub open spec fn reward_numerator(amount: int, tier: int, elapsed: int) -> int {
    amount * tier_apy(tier) * elapsed
}

/// Rewards accrued between `last_claim` and `now` at the tier's fixed APY:
/// `amount * apy_bps / 10_000 * elapsed / SECONDS_PER_YEAR`, taken as
/// `(amount * apy_bps * elapsed / 10_000) / SECONDS_PER_YEAR`, rounded down
/// at each division; zero when no time has passed or nothing is staked.
pub open spec fn accrued(amount: int, tier: int, last_claim: int, now: int) -> int {
    if now <= last_claim || amount == 0 {
        0
    } else {
        reward_numerator(amount, tier, now - last_claim) / (BPS_DENOMINATOR as int) / (
        SECONDS_PER_YEAR as int)
    }
}

/// Whether `accrued_reward` succeeds: the product fits in 128 bits and the
/// reward in 64 bits.
pub open spec fn accrual_fits(amount: int, tier: int, last_claim: int, now: int) -> bool {
    now <= last_claim || amount == 0 || (reward_numerator(amount, tier, now - last_claim)
        <= u128::MAX && accrued(amount, tier, last_claim, now) <= u64::MAX)
}

/// What `accrued_reward` needs where it computes: a valid tier, and an
/// elapsed time that fits in an `i64`.
pub open spec fn accrual_defined(amount: int, tier: int, last_claim: int, now: int) -> bool {
    (now > last_claim && amount != 0) ==> (tier < NUM_TIERS && now - last_claim <= i64::MAX)
}

/// Rewards accrued between `last_claim` and `now` (see `accrued`), computed
/// in 128 bits; `MathOverflow` when the product or the result does not fit.
pub fn accrued_reward(amount: u64, tier: u8, last_claim: i64, now: i64) -> (r: Result<u64, StakingError>)
    requires
        accrual_defined(amount as int, tier as int, last_claim as int, now as int),
    ensures
        r is Ok <==> accrual_fits(amount as int, tier as int, last_claim as int, now as int),
        r matches Ok(v) ==> v == accrued(amount as int, tier as int, last_claim as int, now as int),
        r matches Err(e) ==> e == StakingError::MathOverflow,
{
    if now <= last_claim || amount == 0 {
        return Ok(0);
    }
    let apy_bps = TIER_APY_BPS[tier as usize] as u128;
    let elapsed = (now - last_claim) as u128;
    proof {
        assert(0 <= (amount as int) * (apy_bps as int) <= (u64::MAX as int) * 1200)
            by (nonlinear_arith)
            requires apy_bps <= 1200;
    }
    let per_second = (amount as u128) * apy_bps;
    let product = match per_second.checked_mul(elapsed) {
        Some(p) => p,
        None => return Err(StakingError::MathOverflow),
    };
    let reward = product / (BPS_DENOMINATOR as u128) / (SECONDS_PER_YEAR as u128);
    if reward > u64::MAX as u128 {
        return Err(StakingError::MathOverflow);
    }
    Ok(reward as u64)
}

} // verus!
