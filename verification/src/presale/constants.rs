//! Fixed parameters of the presale. None of them can be changed by the admin.
use vstd::prelude::*;

verus! {

/// SLAM uses 6 decimals, matching USDC/USDT, so the fixed 150,000,000,000-token
/// supply (1.5e17 base units) fits in a `u64`.
pub const SLAM_DECIMALS: u8 = 6;
pub const SLAM_DECIMALS_MULTIPLIER: u64 = 1_000_000;

/// A single flat-price round: everyone buys at the same price.
pub const NUM_ROUNDS: u8 = 1;

/// The round's allocation is the hard cap in tokens: 5,000,000,000 SLAM.
pub const ROUND_ALLOCATION_TOKENS: u64 = 5_000_000_000 * SLAM_DECIMALS_MULTIPLIER;

/// Flat price per whole SLAM token in micro-USD (1e6 = $1.00): $0.00030.
pub const ROUND_PRICE_MICRO_USD: [u64; 1] = [300];

/// Hard cap in micro-USD ($1,500,000), checked at buy time: no purchase
/// takes the USD raised above it.
pub const HARD_CAP_MICRO_USD: u64 = 1_500_000_000_000;

/// Soft cap in micro-USD ($200,000). Below it at the close of the sale window,
/// buyers reclaim their stable-coin contribution through `refund`.
pub const SOFT_CAP_MICRO_USD: u64 = 200_000_000_000;

/// Per-purchase minimum ($100) and per-wallet maximum ($25,000); the maximum
/// bounds a wallet's SOL and stable-coin contributions together.
pub const MIN_PURCHASE_MICRO_USD: u64 = 100_000_000;
pub const MAX_PER_WALLET_MICRO_USD: u64 = 25_000_000_000;

/// Vesting: 20% unlocked at TGE, the remaining 80% linearly over ~4 months.
pub const TGE_UNLOCK_BPS: u64 = 2_000;
pub const BPS_DENOMINATOR: u64 = 10_000;
pub const VESTING_DURATION_SECONDS: i64 = 120 * 24 * 60 * 60;

/// A SOL/USD quote older (or newer) than this, relative to the clock, is stale.
pub const PRICE_STALENESS_THRESHOLD_SECONDS: u64 = 60;

/// Lamports in one SOL.
pub const LAMPORTS_PER_SOL: u64 = 1_000_000_000;

/// Maximum number of distinct stable-coin mints the presale accepts.
pub const MAX_ACCEPTED_STABLES: usize = 4;

} // verus!
