//! The SLAM presale: a single flat-price round paid in SOL or stable-coins,
//! with a soft-cap refund path and linear vesting of the purchased tokens.
//!
//! Each instruction takes its accounts as plain values, checks them, and on
//! success updates them and reports the token movement to perform; on an
//! error nothing changes.
pub mod constants;
pub mod errors;
pub mod math;
pub mod oracle;
pub mod state;
pub mod instructions;
pub mod laws;

use vstd::prelude::*;

use crate::address::Address;
use crate::presale::constants::MAX_ACCEPTED_STABLES;
use crate::presale::errors::PresaleError;
use crate::presale::instructions::admin::{
    padded_stables, AdminOnly, ClosePresaleState, TransferAdmin,
};
use crate::presale::instructions::buy_with_sol::{
    buy_with_sol_applied, buy_with_sol_defined, buy_with_sol_result, BuyWithSol, PurchaseEvent,
};
use crate::presale::instructions::buy_with_stable::{
    buy_with_stable_applied, buy_with_stable_result, BuyWithStable,
};
use crate::presale::instructions::claim_tokens::{claim_tokens_result, vested_now, ClaimTokens};
use crate::presale::instructions::enable_claim::{enable_claim_result, EnableClaim};
use crate::presale::instructions::finalize::{finalize_result, Finalize};
use crate::presale::instructions::initialize::{initialize_applied, Initialize};
use crate::presale::instructions::refund::{refund_result, Refund};
use crate::presale::oracle::PriceQuote;
use crate::presale::state::{PresaleState, UserAllocation};

verus! {

/// One-time setup: the vault, SOL/USD price account, sale window and accepted
/// stable-coin mints. Prices and allocations are constants, not parameters.
pub fn initialize(
    ctx: &mut Initialize,
    sale_start_ts: i64,
    sale_end_ts: i64,
    accepted_stables: Vec<Address>,
) -> (r: Result<(), PresaleError>)
    ensures
        r is Ok <==> accepted_stables.len() <= MAX_ACCEPTED_STABLES && sale_end_ts > sale_start_ts,
        r matches Err(e) ==> *final(ctx) == *old(ctx) && e == if accepted_stables.len()
            > MAX_ACCEPTED_STABLES {
            PresaleError::TooManyStables
        } else {
            PresaleError::InvalidSaleWindow
        },
        r is Ok ==> initialize_applied(
            *old(ctx),
            *final(ctx),
            sale_start_ts,
            sale_end_ts,
            accepted_stables@,
        ),
{
    instructions::initialize::handler(ctx, sale_start_ts, sale_end_ts, accepted_stables)
}

/// Buys SLAM with at most `max_sol_lamports` of native SOL; only the part the
/// round can fill is charged.
pub fn buy_with_sol(
    ctx: &mut BuyWithSol,
    max_sol_lamports: u64,
    quote: Option<PriceQuote>,
    now: i64,
) -> (r: Result<PurchaseEvent, PresaleError>)
    requires
        buy_with_sol_defined(*old(ctx), max_sol_lamports, quote, now),
    ensures
        r == buy_with_sol_result(*old(ctx), max_sol_lamports, quote, now),
        r matches Ok(ev) ==> buy_with_sol_applied(*old(ctx), *final(ctx), ev),
        r is Err ==> *final(ctx) == *old(ctx),
{
    instructions::buy_with_sol::handler(ctx, max_sol_lamports, quote, now)
}

/// Buys SLAM with `stable_amount` base units of an accepted stable-coin.
pub fn buy_with_stable(ctx: &mut BuyWithStable, stable_amount: u64, now: i64) -> (r: Result<PurchaseEvent, PresaleError>)
    requires
        stable_amount > 0 ==> old(ctx).presale_state.accepted_stables_len as int
            <= MAX_ACCEPTED_STABLES,
    ensures
        r == buy_with_stable_result(*old(ctx), stable_amount, now),
        r matches Ok(ev) ==> buy_with_stable_applied(*old(ctx), *final(ctx), ev),
        r is Err ==> *final(ctx) == *old(ctx),
{
    instructions::buy_with_stable::handler(ctx, stable_amount, now)
}

/// Admin-only. After the sale window, with the soft cap reached, sweeps the
/// escrow to the vault and marks the raise finalized.
pub fn finalize(ctx: &mut Finalize, now: i64) -> (r: Result<u64, PresaleError>)
    ensures
        r == finalize_result(*old(ctx), now),
        r is Ok ==> *final(ctx) == (Finalize {
            presale_state: PresaleState { is_finalized: true, ..old(ctx).presale_state },
            ..*old(ctx)
        }),
        r is Err ==> *final(ctx) == *old(ctx),
{
    instructions::finalize::handler(ctx, now)
}

/// Buyer-callable. After the sale window, below the soft cap, returns the
/// buyer's stable-coin contribution from escrow.
pub fn refund(ctx: &mut Refund, now: i64) -> (r: Result<u64, PresaleError>)
    ensures
        r == refund_result(*old(ctx), now),
        r is Ok ==> *final(ctx) == (Refund {
            user_allocation: UserAllocation {
                paid_stable_micro: 0,
                total_purchased: 0,
                ..old(ctx).user_allocation
            },
            ..*old(ctx)
        }),
        r is Err ==> *final(ctx) == *old(ctx),
{
    instructions::refund::handler(ctx, now)
}

/// Admin-only. Once the raise is finalized, activates claiming and fixes the
/// TGE timestamp.
pub fn enable_claim(ctx: &mut EnableClaim, tge_timestamp: i64) -> (r: Result<(), PresaleError>)
    ensures
        r == enable_claim_result(*old(ctx)),
        r is Ok ==> *final(ctx) == (EnableClaim {
            presale_state: PresaleState {
                is_claim_active: true,
                tge_timestamp: tge_timestamp,
                ..old(ctx).presale_state
            },
            ..*old(ctx)
        }),
        r is Err ==> *final(ctx) == *old(ctx),
{
    instructions::enable_claim::handler(ctx, tge_timestamp)
}

/// Buyer-callable once claiming is enabled: pays out the vested, unclaimed
/// part of the allocation.
pub fn claim_tokens(ctx: &mut ClaimTokens, now: i64) -> (r: Result<u64, PresaleError>)
    ensures
        r == claim_tokens_result(*old(ctx), now),
        r matches Ok(amount) ==> {
            &&& final(ctx).user_allocation.total_claimed == old(ctx).user_allocation.total_claimed
                + amount
            &&& final(ctx).user_allocation.total_claimed == vested_now(*old(ctx), now)
            &&& final(ctx).user_allocation.total_claimed <= old(ctx).user_allocation.total_purchased
            &&& *final(ctx) == (ClaimTokens {
                user_allocation: UserAllocation {
                    total_claimed: final(ctx).user_allocation.total_claimed,
                    ..old(ctx).user_allocation
                },
                ..*old(ctx)
            })
        },
        r is Err ==> *final(ctx) == *old(ctx),
{
    instructions::claim_tokens::handler(ctx, now)
}

/// Admin-only. Pauses or resumes purchases.
pub fn set_paused(ctx: &mut AdminOnly, paused: bool) -> (r: Result<(), PresaleError>)
    ensures
        r is Ok <==> old(ctx).admin == old(ctx).presale_state.admin,
        r matches Err(e) ==> e == PresaleError::Unauthorized && *final(ctx) == *old(ctx),
        r is Ok ==> *final(ctx) == (AdminOnly {
            presale_state: PresaleState { is_paused: paused, ..old(ctx).presale_state },
            ..*old(ctx)
        }),
{
    instructions::admin::set_paused(ctx, paused)
}

/// Admin-only. Replaces the proceeds vault.
pub fn update_vault(ctx: &mut AdminOnly, new_vault: Address) -> (r: Result<(), PresaleError>)
    ensures
        r is Ok <==> old(ctx).admin == old(ctx).presale_state.admin,
        r matches Err(e) ==> e == PresaleError::Unauthorized && *final(ctx) == *old(ctx),
        r is Ok ==> *final(ctx) == (AdminOnly {
            presale_state: PresaleState { vault: new_vault, ..old(ctx).presale_state },
            ..*old(ctx)
        }),
{
    instructions::admin::update_vault(ctx, new_vault)
}

/// Admin-only. Replaces the SOL/USD price account.
pub fn update_price_feed(ctx: &mut AdminOnly, new_feed: Address) -> (r: Result<(), PresaleError>)
    ensures
        r is Ok <==> old(ctx).admin == old(ctx).presale_state.admin,
        r matches Err(e) ==> e == PresaleError::Unauthorized && *final(ctx) == *old(ctx),
        r is Ok ==> *final(ctx) == (AdminOnly {
            presale_state: PresaleState { sol_usd_price_feed: new_feed, ..old(ctx).presale_state },
            ..*old(ctx)
        }),
{
    instructions::admin::update_price_feed(ctx, new_feed)
}

/// Admin-only. Replaces the accepted stable-coin mints.
pub fn update_accepted_stables(ctx: &mut AdminOnly, mints: Vec<Address>) -> (r: Result<(), PresaleError>)
    ensures
        r is Ok <==> old(ctx).admin == old(ctx).presale_state.admin && mints.len()
            <= MAX_ACCEPTED_STABLES,
        r matches Err(e) ==> *final(ctx) == *old(ctx) && e == if old(ctx).admin
            != old(ctx).presale_state.admin {
            PresaleError::Unauthorized
        } else {
            PresaleError::TooManyStables
        },
        r is Ok ==> {
            &&& final(ctx).presale_state.accepted_stables@ == padded_stables(mints@)
            &&& final(ctx).presale_state.accepted_stables_len == mints.len()
            &&& *final(ctx) == (AdminOnly {
                presale_state: PresaleState {
                    accepted_stables: final(ctx).presale_state.accepted_stables,
                    accepted_stables_len: final(ctx).presale_state.accepted_stables_len,
                    ..old(ctx).presale_state
                },
                ..*old(ctx)
            })
        },
{
    instructions::admin::update_accepted_stables(ctx, mints)
}

/// Admin-only. Hands the admin role to `new_admin`.
pub fn transfer_admin(ctx: &mut TransferAdmin, new_admin: Address) -> (r: Result<(), PresaleError>)
    ensures
        r is Ok <==> old(ctx).admin == old(ctx).presale_state.admin,
        r matches Err(e) ==> e == PresaleError::Unauthorized && *final(ctx) == *old(ctx),
        r is Ok ==> *final(ctx) == (TransferAdmin {
            presale_state: PresaleState { admin: new_admin, ..old(ctx).presale_state },
            ..*old(ctx)
        }),
{
    instructions::admin::transfer_admin(ctx, new_admin)
}

/// Admin-only reset: whether the global state may be closed so `initialize`
/// can run again; refused once any tokens have been sold.
pub fn close_presale_state(ctx: &ClosePresaleState) -> (r: Result<(), PresaleError>)
    ensures
        r is Ok <==> ctx.admin == ctx.presale_state.admin && ctx.presale_state.total_tokens_sold
            == 0,
        r matches Err(e) ==> e == if ctx.admin != ctx.presale_state.admin {
            PresaleError::Unauthorized
        } else {
            PresaleError::StateNotEmpty
        },
{
    instructions::admin::close_presale_state(ctx)
}

} // verus!
