//! The presale's instructions, one module each.
pub mod admin;
pub mod initialize;
pub mod buy_with_sol;
pub mod buy_with_stable;
pub mod claim_tokens;
pub mod enable_claim;
pub mod finalize;
pub mod refund;
