//! Buying SLAM with native SOL at the Pyth SOL/USD price.
use vstd::prelude::*;

use crate::address::Address;
use crate::presale::constants::{
    LAMPORTS_PER_SOL, MAX_PER_WALLET_MICRO_USD, PRICE_STALENESS_THRESHOLD_SECONDS,
};
use crate::presale::errors::PresaleError;
use crate::presale::math::{mul_div, mul_div_fits, mul_div_u64};
use crate::presale::oracle::{
    checked_pow10, lemma_pow10_monotonic, micro_usd_price, pow10, price_no_older_than,
    quote_is_fresh, quote_time_in_range, PriceQuote,
};
use crate::presale::state::{PresaleState, UserAllocation};

verus! {

/// Accounts of `buy_with_sol`: the buyer, the global state, the buyer's
/// allocation (with the bump it gets if this is its first purchase), the
/// proceeds vault and the price account passed in.
#[derive(Clone, Copy, Debug)]
pub struct BuyWithSol {
    pub buyer: Address,
    pub presale_state: PresaleState,
    pub user_allocation: UserAllocation,
    pub user_allocation_bump: u8,
    pub vault: Address,
    pub price_feed: Address,
}

/// Emitted for every purchase; the SOL or stable-coin amount it names is what
/// moves from the buyer.
#[derive(Clone, Copy, Debug, PartialEq, Eq, Structural)]
pub struct PurchaseEvent {
    pub buyer: Address,
    pub tokens: u64,
    pub usd_value_micro: u64,
    pub paid_lamports: u64,
    pub paid_stable_micro: u64,
}

/// The allocation a purchase is recorded in: on its first use it is stamped
/// with the buyer and its bump.
pub open spec fn allocation_for(alloc: UserAllocation, buyer: Address, bump: u8) -> UserAllocation {
    if alloc.buyer == Address::spec_zero() {
        UserAllocation { buyer: buyer, bump: bump, ..alloc }
    } else {
        alloc
    }
}

/// Converts a Pyth price to micro-USD per whole SOL (see `micro_usd_price`);
/// `MathOverflow` when that does not fit.
pub fn price_to_micro_usd(price: i64, expo: i32) -> (r: Result<u64, PresaleError>)
    requires
        price > 0,
        expo + 6 <= i32::MAX,
    ensures
        r is Ok <==> micro_usd_price(price as int, expo as int) is Some,
        r matches Ok(v) ==> v == micro_usd_price(price as int, expo as int)->Some_0,
        r matches Err(e) ==> e == PresaleError::MathOverflow,
{
    let price_u64 = price as u64;
    let shift: i32 = expo + 6;
    if shift >= 0 {
        let p = match checked_pow10(shift as u32) {
            Some(p) => p,
            None => return Err(PresaleError::MathOverflow),
        };
        match price_u64.checked_mul(p) {
            Some(v) => Ok(v),
            None => Err(PresaleError::MathOverflow),
        }
    } else {
        let p = match checked_pow10((-shift) as u32) {
            Some(p) => p,
            None => return Err(PresaleError::MathOverflow),
        };
        proof {
            lemma_pow10_monotonic(0, (-shift) as nat);
        }
        Ok(price_u64 / p)
    }
}

/// What a call of `handler` needs so that no `i64`/`i32` arithmetic on the
/// quote overflows where the instruction reaches it.
pub open spec fn buy_with_sol_defined(ctx: BuyWithSol, max_sol_lamports: u64, quote: Option<PriceQuote>, now: i64) -> bool {
    (ctx.vault == ctx.presale_state.vault && ctx.price_feed == ctx.presale_state.sol_usd_price_feed
        && max_sol_lamports > 0 && quote is Some) ==> {
        let q = quote->Some_0;
        &&& quote_time_in_range(q, now)
        &&& (quote_is_fresh(q, now, PRICE_STALENESS_THRESHOLD_SECONDS) && q.price > 0) ==> q.expo
            + 6 <= i32::MAX
    }
}

/// The outcome of `buy_with_sol`: the purchase event, or the error.
/// `quote` is the current price read from the price account (`None` when the
/// account does not hold a Pyth price).
pub open spec fn buy_with_sol_result(
    ctx: BuyWithSol,
    max_sol_lamports: u64,
    quote: Option<PriceQuote>,
    now: i64,
) -> Result<PurchaseEvent, PresaleError> {
    let st = ctx.presale_state;
    let q = quote->Some_0;
    let sol_price = micro_usd_price(q.price as int, q.expo as int)->Some_0;
    let usd = mul_div(max_sol_lamports as int, sol_price, LAMPORTS_PER_SOL as int);
    if ctx.vault != st.vault {
        Err(PresaleError::Unauthorized)
    } else if ctx.price_feed != st.sol_usd_price_feed {
        Err(PresaleError::InvalidPriceFeed)
    } else if max_sol_lamports == 0 {
        Err(PresaleError::ZeroAmount)
    } else if quote is None {
        Err(PresaleError::InvalidPriceFeed)
    } else if !quote_is_fresh(q, now, PRICE_STALENESS_THRESHOLD_SECONDS) {
        Err(PresaleError::StalePrice)
    } else if q.price <= 0 {
        Err(PresaleError::InvalidPrice)
    } else if micro_usd_price(q.price as int, q.expo as int) is None {
        Err(PresaleError::MathOverflow)
    } else if !mul_div_fits(max_sol_lamports as int, sol_price, LAMPORTS_PER_SOL as int) {
        Err(PresaleError::MathOverflow)
    } else if ctx.user_allocation.contribution() + usd > MAX_PER_WALLET_MICRO_USD {
        Err(PresaleError::AboveWalletMaximum)
    } else {
        match st.purchase_outcome(usd as u64, now) {
            Err(e) => Err(e),
            Ok((tokens, charged)) => {
                let alloc = allocation_for(ctx.user_allocation, ctx.buyer, ctx.user_allocation_bump);
                let lamports = mul_div(charged as int, LAMPORTS_PER_SOL as int, sol_price);
                if !mul_div_fits(charged as int, LAMPORTS_PER_SOL as int, sol_price) {
                    Err(PresaleError::MathOverflow)
                } else if alloc.total_purchased + tokens > u64::MAX {
                    Err(PresaleError::MathOverflow)
                } else if alloc.paid_sol_lamports + lamports > u64::MAX {
                    Err(PresaleError::MathOverflow)
                } else if alloc.paid_sol_usd_micro + charged > u64::MAX {
                    Err(PresaleError::MathOverflow)
                } else {
                    Ok(
                        PurchaseEvent {
                            buyer: ctx.buyer,
                            tokens,
                            usd_value_micro: charged,
                            paid_lamports: lamports as u64,
                            paid_stable_micro: 0,
                        },
                    )
                }
            },
        }
    }
}

/// `post` is `pre` after the SOL purchase announced by `ev`: the presale
/// records it, and the buyer's allocation grows by its tokens, lamports and
/// their micro-USD value.
pub open spec fn buy_with_sol_applied(pre: BuyWithSol, post: BuyWithSol, ev: PurchaseEvent) -> bool {
    let alloc = allocation_for(pre.user_allocation, pre.buyer, pre.user_allocation_bump);
    &&& PresaleState::purchase_recorded(
        pre.presale_state,
        post.presale_state,
        ev.tokens,
        ev.usd_value_micro,
    )
    &&& post.user_allocation == (UserAllocation {
        total_purchased: (alloc.total_purchased + ev.tokens) as u64,
        paid_sol_lamports: (alloc.paid_sol_lamports + ev.paid_lamports) as u64,
        paid_sol_usd_micro: (alloc.paid_sol_usd_micro + ev.usd_value_micro) as u64,
        ..alloc
    })
    &&& post == (BuyWithSol {
        presale_state: post.presale_state,
        user_allocation: post.user_allocation,
        ..pre
    })
}

/// Buys SLAM with at most `max_sol_lamports`. The SOL value is priced with a
/// fresh positive Pyth quote; the wallet's contribution so far (SOL and
/// stable-coin) plus that value must stay within `MAX_PER_WALLET_MICRO_USD`.
/// If the round has less left than that buys, only the remainder is sold and
/// only its price is charged. The returned event's
/// `paid_lamports` is what moves from the buyer to the vault. Nothing changes
/// on an error.
pub fn handler(
    ctx: &mut BuyWithSol,
    max_sol_lamports: u64,
    quote: Option<PriceQuote>,
    now: i64,
) -> (r: Result<PurchaseEvent, PresaleError>)
    requires
        buy_with_sol_defined(*old(ctx), max_sol_lamports, quote, now),
    ensures
        r == buy_with_sol_result(*old(ctx), max_sol_lamports, quote, now),
        r matches Ok(ev) ==> buy_with_sol_applied(*old(ctx), *final(ctx), ev),
        r matches Ok(ev) ==> final(ctx).user_allocation.total_purchased
            == old(ctx).user_allocation.total_purchased + ev.tokens,
        r matches Ok(ev) ==> final(ctx).presale_state.total_tokens_sold
            == old(ctx).presale_state.total_tokens_sold + ev.tokens,
        r matches Ok(ev) ==> final(ctx).user_allocation.paid_sol_lamports
            == old(ctx).user_allocation.paid_sol_lamports + ev.paid_lamports,
        r is Err ==> *final(ctx) == *old(ctx),
{
    if ctx.vault != ctx.presale_state.vault {
        return Err(PresaleError::Unauthorized);
    }
    if ctx.price_feed != ctx.presale_state.sol_usd_price_feed {
        return Err(PresaleError::InvalidPriceFeed);
    }
    if max_sol_lamports == 0 {
        return Err(PresaleError::ZeroAmount);
    }
    let q = match quote {
        Some(q) => q,
        None => return Err(PresaleError::InvalidPriceFeed),
    };
    let price = match price_no_older_than(q, now, PRICE_STALENESS_THRESHOLD_SECONDS) {
        Some(p) => p,
        None => return Err(PresaleError::StalePrice),
    };
    if price.price <= 0 {
        return Err(PresaleError::InvalidPrice);
    }
    let sol_usd_price_micro = price_to_micro_usd(price.price, price.expo)?;
    let usd_value_micro = mul_div_u64(max_sol_lamports, sol_usd_price_micro, LAMPORTS_PER_SOL)?;
    let contribution = ctx.user_allocation.paid_stable_micro as u128
        + ctx.user_allocation.paid_sol_usd_micro as u128;
    if contribution + usd_value_micro as u128 > MAX_PER_WALLET_MICRO_USD as u128 {
        return Err(PresaleError::AboveWalletMaximum);
    }
    let mut state = ctx.presale_state;
    let (tokens, actual_usd_micro) = state.consume_purchase(usd_value_micro, now)?;
    let actual_lamports = mul_div_u64(actual_usd_micro, LAMPORTS_PER_SOL, sol_usd_price_micro)?;
    let mut alloc = ctx.user_allocation;
    if alloc.buyer.is_zero() {
        alloc.buyer = ctx.buyer;
        alloc.bump = ctx.user_allocation_bump;
    }
    alloc.total_purchased = match alloc.total_purchased.checked_add(tokens) {
        Some(v) => v,
        None => return Err(PresaleError::MathOverflow),
    };
    alloc.paid_sol_lamports = match alloc.paid_sol_lamports.checked_add(actual_lamports) {
        Some(v) => v,
        None => return Err(PresaleError::MathOverflow),
    };
    alloc.paid_sol_usd_micro = match alloc.paid_sol_usd_micro.checked_add(actual_usd_micro) {
        Some(v) => v,
        None => return Err(PresaleError::MathOverflow),
    };
    ctx.presale_state = state;
    ctx.user_allocation = alloc;
    Ok(
        PurchaseEvent {
            buyer: ctx.buyer,
            tokens,
            usd_value_micro: actual_usd_micro,
            paid_lamports: actual_lamports,
            paid_stable_micro: 0,
        },
    )
}

} // verus!
