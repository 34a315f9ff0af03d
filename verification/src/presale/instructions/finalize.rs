//! Closing a successful raise: sweeping the stable-coin escrow to the vault.
use vstd::prelude::*;

use crate::address::Address;
use crate::presale::constants::SOFT_CAP_MICRO_USD;
use crate::presale::errors::PresaleError;
use crate::presale::state::PresaleState;

verus! {

/// Accounts of `finalize`: the signer, the global state, and the balance of
/// the escrow account for the stable-coin being swept.
#[derive(Clone, Copy, Debug)]
pub struct Finalize {
    pub admin: Address,
    pub presale_state: PresaleState,
    pub escrow_amount: u64,
}

/// The outcome of `finalize`: the amount swept from escrow to the vault (no
/// transfer when it is zero), or the error.
pub open spec fn finalize_result(ctx: Finalize, now: i64) -> Result<u64, PresaleError> {
    let st = ctx.presale_state;
    if ctx.admin != st.admin {
        Err(PresaleError::Unauthorized)
    } else if now <= st.sale_end_ts {
        Err(PresaleError::SaleNotEnded)
    } else if st.is_finalized {
        Err(PresaleError::AlreadyFinalized)
    } else if st.total_usd_raised_micro < SOFT_CAP_MICRO_USD {
        Err(PresaleError::SoftCapNotReached)
    } else {
        Ok(ctx.escrow_amount)
    }
}

/// Admin-only, once the sale window has closed with the soft cap reached:
/// sweeps the whole escrow balance to the vault and marks the raise
/// finalized. Below the soft cap it fails, and buyers refund instead.
pub fn handler(ctx: &mut Finalize, now: i64) -> (r: Result<u64, PresaleError>)
    ensures
        r == finalize_result(*old(ctx), now),
        r is Ok ==> *final(ctx) == (Finalize {
            presale_state: PresaleState { is_finalized: true, ..old(ctx).presale_state },
            ..*old(ctx)
        }),
        r is Err ==> *final(ctx) == *old(ctx),
{
    if ctx.admin != ctx.presale_state.admin {
        return Err(PresaleError::Unauthorized);
    }
    if now <= ctx.presale_state.sale_end_ts {
        return Err(PresaleError::SaleNotEnded);
    }
    if ctx.presale_state.is_finalized {
        return Err(PresaleError::AlreadyFinalized);
    }
    if ctx.presale_state.total_usd_raised_micro < SOFT_CAP_MICRO_USD {
        return Err(PresaleError::SoftCapNotReached);
    }
    let amount = ctx.escrow_amount;
    ctx.presale_state.is_finalized = true;
    Ok(amount)
}

} // verus!
