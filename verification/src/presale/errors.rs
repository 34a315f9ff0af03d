//! Errors of the presale program.
use vstd::prelude::*;

verus! {

/// Why a presale instruction was refused.
#[derive(Clone, Copy, Debug, PartialEq, Eq, Structural)]
pub enum PresaleError {
    /// The presale has not started yet.
    NotStarted,
    /// The presale has ended.
    Ended,
    /// The sale end time must be after the sale start time.
    InvalidSaleWindow,
    /// Too many accepted stable-coin mints were provided.
    TooManyStables,
    /// The presale is paused.
    Paused,
    /// All rounds are sold out.
    SoldOut,
    /// The contribution amount must be greater than zero.
    ZeroAmount,
    /// The contribution is below the minimum purchase amount.
    BelowMinimum,
    /// The payment token mint is not accepted.
    UnsupportedMint,
    /// The price feed account does not match the configured SOL/USD feed.
    InvalidPriceFeed,
    /// The price feed data is stale.
    StalePrice,
    /// The price feed returned a non-positive price.
    InvalidPrice,
    /// Only the admin (or the account's owner) can perform this action.
    Unauthorized,
    /// Claiming has not been enabled yet.
    ClaimNotActive,
    /// Claiming has already been enabled.
    ClaimAlreadyActive,
    /// Nothing is available to claim right now.
    NothingToClaim,
    /// Arithmetic overflow.
    MathOverflow,
    /// Arithmetic underflow.
    MathUnderflow,
    /// The token vault does not hold enough SLAM to cover the request.
    InsufficientVaultBalance,
    /// The presale state cannot be closed after purchases have been recorded.
    StateNotEmpty,
    /// The sale window has not closed yet.
    SaleNotEnded,
    /// The raise has already been finalized.
    AlreadyFinalized,
    /// The soft cap was not reached, so the raise cannot be finalized.
    SoftCapNotReached,
    /// The soft cap was reached (or the raise finalized), so there is no refund.
    SoftCapReached,
    /// The buyer has no stable-coin contribution to refund.
    NothingToRefund,
    /// The purchase would take the wallet above its maximum contribution.
    AboveWalletMaximum,
    /// The purchase would take the USD raised above the hard cap.
    HardCapReached,
    /// Claims cannot be enabled before the raise is finalized.
    NotFinalized,
}

} // verus!
