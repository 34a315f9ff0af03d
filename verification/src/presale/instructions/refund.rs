//! Returning a buyer's stable-coin contribution after a failed raise.
use vstd::prelude::*;

use crate::address::Address;
use crate::presale::constants::SOFT_CAP_MICRO_USD;
use crate::presale::errors::PresaleError;
use crate::presale::state::{PresaleState, UserAllocation};

verus! {

/// Accounts of `refund`: the buyer, the global state and the buyer's
/// allocation.
#[derive(Clone, Copy, Debug)]
pub struct Refund {
    pub buyer: Address,
    pub presale_state: PresaleState,
    pub user_allocation: UserAllocation,
}

/// The outcome of `refund`: the stable-coin amount returned from escrow, or
/// the error.
pub open spec fn refund_result(ctx: Refund, now: i64) -> Result<u64, PresaleError> {
    let st = ctx.presale_state;
    if ctx.user_allocation.buyer != ctx.buyer {
        Err(PresaleError::Unauthorized)
    } else if now <= st.sale_end_ts {
        Err(PresaleError::SaleNotEnded)
    } else if st.is_finalized {
        Err(PresaleError::SoftCapReached)
    } else if st.total_usd_raised_micro >= SOFT_CAP_MICRO_USD {
        Err(PresaleError::SoftCapReached)
    } else if ctx.user_allocation.paid_stable_micro == 0 {
        Err(PresaleError::NothingToRefund)
    } else {
        Ok(ctx.user_allocation.paid_stable_micro)
    }
}

/// Once the sale window has closed below the soft cap (and the raise was
/// never finalized), returns the buyer's whole stable-coin contribution from
/// escrow and zeroes the allocation, so it can be neither claimed nor
/// refunded again. SOL contributions are not part of the refund.
pub fn handler(ctx: &mut Refund, now: i64) -> (r: Result<u64, PresaleError>)
    ensures
        r == refund_result(*old(ctx), now),
        r is Ok ==> *final(ctx) == (Refund {
            user_allocation: UserAllocation {
                paid_stable_micro: 0,
                total_purchased: 0,
                ..old(ctx).user_allocation
            },
            ..*old(ctx)
        }),
        r is Err ==> *final(ctx) == *old(ctx),
{
    if ctx.user_allocation.buyer != ctx.buyer {
        return Err(PresaleError::Unauthorized);
    }
    if now <= ctx.presale_state.sale_end_ts {
        return Err(PresaleError::SaleNotEnded);
    }
    if ctx.presale_state.is_finalized {
        return Err(PresaleError::SoftCapReached);
    }
    if ctx.presale_state.total_usd_raised_micro >= SOFT_CAP_MICRO_USD {
        return Err(PresaleError::SoftCapReached);
    }
    let amount = ctx.user_allocation.paid_stable_micro;
    if amount == 0 {
        return Err(PresaleError::NothingToRefund);
    }
    ctx.user_allocation.paid_stable_micro = 0;
    ctx.user_allocation.total_purchased = 0;
    Ok(amount)
}

} // verus!
