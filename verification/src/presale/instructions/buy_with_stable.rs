//! Buying SLAM with an accepted stable-coin (6 decimals, so one base unit is
//! one micro-USD). Proceeds go to the program's escrow until `finalize`.
use vstd::prelude::*;

use crate::address::Address;
use crate::presale::constants::{MAX_ACCEPTED_STABLES, MAX_PER_WALLET_MICRO_USD};
use crate::presale::errors::PresaleError;
use crate::presale::instructions::buy_with_sol::{allocation_for, PurchaseEvent};
use crate::presale::state::{PresaleState, UserAllocation};

verus! {

/// Accounts of `buy_with_stable`: the buyer, the global state, the buyer's
/// allocation (with the bump it gets if this is its first purchase) and the
/// mint being paid with.
#[derive(Clone, Copy, Debug)]
pub struct BuyWithStable {
    pub buyer: Address,
    pub presale_state: PresaleState,
    pub user_allocation: UserAllocation,
    pub user_allocation_bump: u8,
    pub stable_mint: Address,
}

/// Whether `mint` is among the first `accepted_stables_len` accepted mints.
pub open spec fn is_accepted_stable(st: PresaleState, mint: Address) -> bool {
    exists|i: int| 0 <= i < st.accepted_stables_len && st.accepted_stables@[i] == mint
}

/// Looks `mint` up among the accepted stable-coin mints.
pub fn accepts_stable(st: &PresaleState, mint: Address) -> (b: bool)
    requires
        st.accepted_stables_len as int <= MAX_ACCEPTED_STABLES,
    ensures
        b == is_accepted_stable(*st, mint),
{
    let n = st.accepted_stables_len as usize;
    for i in 0..n
        invariant
            n == st.accepted_stables_len,
            n <= MAX_ACCEPTED_STABLES,
            forall|j: int| 0 <= j < i ==> st.accepted_stables@[j] != mint,
    {
        if st.accepted_stables[i] == mint {
            return true;
        }
    }
    false
}

/// The outcome of `buy_with_stable`: the purchase event, or the error.
pub open spec fn buy_with_stable_result(ctx: BuyWithStable, stable_amount: u64, now: i64) -> Result<PurchaseEvent, PresaleError> {
    let st = ctx.presale_state;
    if stable_amount == 0 {
        Err(PresaleError::ZeroAmount)
    } else if !is_accepted_stable(st, ctx.stable_mint) {
        Err(PresaleError::UnsupportedMint)
    } else if ctx.user_allocation.contribution() + stable_amount > MAX_PER_WALLET_MICRO_USD {
        Err(PresaleError::AboveWalletMaximum)
    } else {
        match st.purchase_outcome(stable_amount, now) {
            Err(e) => Err(e),
            Ok((tokens, charged)) => {
                let alloc = allocation_for(ctx.user_allocation, ctx.buyer, ctx.user_allocation_bump);
                if alloc.total_purchased + tokens > u64::MAX {
                    Err(PresaleError::MathOverflow)
                } else if alloc.paid_stable_micro + charged > u64::MAX {
                    Err(PresaleError::MathOverflow)
                } else {
                    Ok(
                        PurchaseEvent {
                            buyer: ctx.buyer,
                            tokens,
                            usd_value_micro: charged,
                            paid_lamports: 0,
                            paid_stable_micro: charged,
                        },
                    )
                }
            },
        }
    }
}

/// `post` is `pre` after the stable-coin purchase announced by `ev`.
pub open spec fn buy_with_stable_applied(pre: BuyWithStable, post: BuyWithStable, ev: PurchaseEvent) -> bool {
    let alloc = allocation_for(pre.user_allocation, pre.buyer, pre.user_allocation_bump);
    &&& PresaleState::purchase_recorded(
        pre.presale_state,
        post.presale_state,
        ev.tokens,
        ev.usd_value_micro,
    )
    &&& post.user_allocation == (UserAllocation {
        total_purchased: (alloc.total_purchased + ev.tokens) as u64,
        paid_stable_micro: (alloc.paid_stable_micro + ev.paid_stable_micro) as u64,
        ..alloc
    })
    &&& post == (BuyWithStable {
        presale_state: post.presale_state,
        user_allocation: post.user_allocation,
        ..pre
    })
}

/// Buys SLAM for `stable_amount` base units of an accepted stable-coin. The
/// wallet's contribution so far (SOL and stable-coin) plus the requested
/// amount, before any clamping, must stay within `MAX_PER_WALLET_MICRO_USD`. The returned
/// event's `paid_stable_micro` is what moves from the buyer to the escrow.
/// Nothing changes on an error.
pub fn handler(ctx: &mut BuyWithStable, stable_amount: u64, now: i64) -> (r: Result<PurchaseEvent, PresaleError>)
    requires
        stable_amount > 0 ==> old(ctx).presale_state.accepted_stables_len as int
            <= MAX_ACCEPTED_STABLES,
    ensures
        r == buy_with_stable_result(*old(ctx), stable_amount, now),
        r matches Ok(ev) ==> buy_with_stable_applied(*old(ctx), *final(ctx), ev),
        r matches Ok(ev) ==> final(ctx).user_allocation.total_purchased
            == old(ctx).user_allocation.total_purchased + ev.tokens,
        r matches Ok(ev) ==> final(ctx).presale_state.total_tokens_sold
            == old(ctx).presale_state.total_tokens_sold + ev.tokens,
        r matches Ok(ev) ==> final(ctx).user_allocation.paid_stable_micro
            == old(ctx).user_allocation.paid_stable_micro + ev.paid_stable_micro,
        r is Err ==> *final(ctx) == *old(ctx),
{
    if stable_amount == 0 {
        return Err(PresaleError::ZeroAmount);
    }
    if !accepts_stable(&ctx.presale_state, ctx.stable_mint) {
        return Err(PresaleError::UnsupportedMint);
    }
    let usd_value_micro = stable_amount;
    let contribution = ctx.user_allocation.paid_stable_micro as u128
        + ctx.user_allocation.paid_sol_usd_micro as u128;
    if contribution + usd_value_micro as u128 > MAX_PER_WALLET_MICRO_USD as u128 {
        return Err(PresaleError::AboveWalletMaximum);
    }
    let mut state = ctx.presale_state;
    let (tokens, actual_usd_micro) = state.consume_purchase(usd_value_micro, now)?;
    let mut alloc = ctx.user_allocation;
    if alloc.buyer.is_zero() {
        alloc.buyer = ctx.buyer;
        alloc.bump = ctx.user_allocation_bump;
    }
    alloc.total_purchased = match alloc.total_purchased.checked_add(tokens) {
        Some(v) => v,
        None => return Err(PresaleError::MathOverflow),
    };
    alloc.paid_stable_micro = match alloc.paid_stable_micro.checked_add(actual_usd_micro) {
        Some(v) => v,
        None => return Err(PresaleError::MathOverflow),
    };
    ctx.presale_state = state;
    ctx.user_allocation = alloc;
    Ok(
        PurchaseEvent {
            buyer: ctx.buyer,
            tokens,
            usd_value_micro: actual_usd_micro,
            paid_lamports: 0,
            paid_stable_micro: actual_usd_micro,
        },
    )
}

} // verus!
