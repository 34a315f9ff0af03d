//! Paying out the vested part of a buyer's allocation.
use vstd::prelude::*;

use crate::address::Address;
use crate::presale::errors::PresaleError;
use crate::presale::state::{total_vested_amount, vested_amount, PresaleState, UserAllocation};

verus! {

/// Accounts of `claim_tokens`: the buyer, the global state, the buyer's
/// allocation, and the SLAM token vault passed in with its balance.
#[derive(Clone, Copy, Debug)]
pub struct ClaimTokens {
    pub buyer: Address,
    pub presale_state: PresaleState,
    pub user_allocation: UserAllocation,
    pub token_vault: Address,
    pub token_vault_amount: u64,
}

/// The allocation's vested amount at `now`.
pub open spec fn vested_now(ctx: ClaimTokens, now: i64) -> int {
    vested_amount(
        ctx.user_allocation.total_purchased as int,
        ctx.presale_state.tge_timestamp as int,
        now as int,
    )
}

/// The outcome of `claim_tokens`: the amount paid out, or the error.
pub open spec fn claim_tokens_result(ctx: ClaimTokens, now: i64) -> Result<u64, PresaleError> {
    let claimable = vested_now(ctx, now) - ctx.user_allocation.total_claimed;
    if ctx.user_allocation.buyer != ctx.buyer {
        Err(PresaleError::Unauthorized)
    } else if ctx.token_vault != ctx.presale_state.token_vault {
        Err(PresaleError::Unauthorized)
    } else if !ctx.presale_state.is_claim_active {
        Err(PresaleError::ClaimNotActive)
    } else if claimable < 0 {
        Err(PresaleError::MathUnderflow)
    } else if claimable == 0 {
        Err(PresaleError::NothingToClaim)
    } else if ctx.token_vault_amount < claimable {
        Err(PresaleError::InsufficientVaultBalance)
    } else {
        Ok(claimable as u64)
    }
}

/// Pays out whatever part of the allocation has vested and was not claimed
/// yet; the returned amount moves from the token vault to the buyer. After
/// a success the allocation's `total_claimed` equals what has vested.
pub fn handler(ctx: &mut ClaimTokens, now: i64) -> (r: Result<u64, PresaleError>)
    ensures
        r == claim_tokens_result(*old(ctx), now),
        r matches Ok(amount) ==> {
            &&& final(ctx).user_allocation.total_claimed == old(ctx).user_allocation.total_claimed
                + amount
            &&& final(ctx).user_allocation.total_claimed == vested_now(*old(ctx), now)
            &&& final(ctx).user_allocation.total_claimed <= old(ctx).user_allocation.total_purchased
            &&& *final(ctx) == (ClaimTokens {
                user_allocation: UserAllocation {
                    total_claimed: final(ctx).user_allocation.total_claimed,
                    ..old(ctx).user_allocation
                },
                ..*old(ctx)
            })
        },
        r is Err ==> *final(ctx) == *old(ctx),
{
    if ctx.user_allocation.buyer != ctx.buyer {
        return Err(PresaleError::Unauthorized);
    }
    if ctx.token_vault != ctx.presale_state.token_vault {
        return Err(PresaleError::Unauthorized);
    }
    if !ctx.presale_state.is_claim_active {
        return Err(PresaleError::ClaimNotActive);
    }
    let vested = total_vested_amount(
        ctx.user_allocation.total_purchased,
        ctx.presale_state.tge_timestamp,
        now,
    )?;
    let claimed = ctx.user_allocation.total_claimed;
    if vested < claimed {
        return Err(PresaleError::MathUnderflow);
    }
    let claimable = vested - claimed;
    if claimable == 0 {
        return Err(PresaleError::NothingToClaim);
    }
    if ctx.token_vault_amount < claimable {
        return Err(PresaleError::InsufficientVaultBalance);
    }
    ctx.user_allocation.total_claimed = claimed + claimable;
    Ok(claimable)
}

} // verus!
