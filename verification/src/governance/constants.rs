//! Governance parameters: stake-weighted signaling votes, where longer locks
//! get more say (1x / 1.5x / 2x).
use vstd::prelude::*;

verus! {

/// Vote multiplier per staking tier, in percent: 1.0x / 1.5x / 2.0x.
pub const TIER_VOTE_MULT: [u64; 3] = [100, 150, 200];

/// Maximum title and summary lengths, in bytes.
pub const TITLE_MAX: usize = 80;
pub const SUMMARY_MAX: usize = 280;

/// Proposal status.
pub const STATUS_ACTIVE: u8 = 0;
pub const STATUS_PASSED: u8 = 1;
pub const STATUS_REJECTED: u8 = 2;

/// Vote choice.
pub const CHOICE_NO: u8 = 0;
pub const CHOICE_YES: u8 = 1;

/// The voting period must be between 1 hour and 30 days.
pub const MIN_VOTING_PERIOD_SECS: i64 = 3_600;
pub const MAX_VOTING_PERIOD_SECS: i64 = 2_592_000;

} // verus!
