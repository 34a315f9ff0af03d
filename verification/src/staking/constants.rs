//! Staking parameters: three fixed-APY lock tiers, rewards paid from a
//! program-owned reward vault.
use vstd::prelude::*;

verus! {

/// SLAM has 6 decimals.
pub const SLAM_DECIMALS_MULTIPLIER: u64 = 1_000_000;
pub const BPS_DENOMINATOR: u64 = 10_000;
pub const SECONDS_PER_YEAR: u64 = 365 * 24 * 60 * 60;

pub const NUM_TIERS: usize = 3;

/// Lock duration per tier, in seconds: Flexible (no lock), 6-month, 12-month.
pub const TIER_LOCK_SECONDS: [i64; 3] = [0, 15_552_000, 31_536_000];

/// Fixed APY per tier, in basis points: 6% / 9% / 12%.
pub const TIER_APY_BPS: [u64; 3] = [600, 900, 1200];

/// Early-unstake penalty on principal per tier, in basis points: 0% / 10% /
/// 15%. The forfeited part is recycled into the reward vault.
pub const TIER_EARLY_PENALTY_BPS: [u64; 3] = [0, 1000, 1500];

/// Minimum stake: 100 SLAM.
pub const MIN_STAKE_TOKENS: u64 = 100 * SLAM_DECIMALS_MULTIPLIER;

} // verus!
