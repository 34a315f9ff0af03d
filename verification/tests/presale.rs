use slam::address::Address;
use slam::presale::constants::{
    HARD_CAP_MICRO_USD, MAX_PER_WALLET_MICRO_USD, ROUND_ALLOCATION_TOKENS, SOFT_CAP_MICRO_USD, VESTING_DURATION_SECONDS,
};
use slam::presale::errors::PresaleError;
use slam::presale::instructions::admin::{AdminOnly, ClosePresaleState, TransferAdmin};
use slam::presale::instructions::buy_with_sol::{price_to_micro_usd, BuyWithSol};
use slam::presale::instructions::buy_with_stable::BuyWithStable;
use slam::presale::instructions::claim_tokens::ClaimTokens;
use slam::presale::instructions::enable_claim::EnableClaim;
use slam::presale::instructions::finalize::Finalize;
use slam::presale::instructions::initialize::Initialize;
use slam::presale::instructions::refund::Refund;
use slam::presale::math::mul_div_u64;
use slam::presale::oracle::{checked_pow10, PriceQuote};
use slam::presale::state::{total_vested_amount, PresaleState, UserAllocation};

fn addr(n: u64) -> Address {
    Address { w0: n, w1: n, w2: n, w3: n }
}

const ADMIN: u64 = 1;
const VAULT: u64 = 2;
const MINT: u64 = 3;
const TOKEN_VAULT: u64 = 4;
const FEED: u64 = 5;
const USDC: u64 = 6;
const USDT: u64 = 7;
const BUYER: u64 = 8;
const START: i64 = 1_000;
const END: i64 = 2_000;

fn zero_state() -> PresaleState {
    PresaleState {
        admin: Address::zero(),
        vault: Address::zero(),
        slam_mint: Address::zero(),
        token_vault: Address::zero(),
        sol_usd_price_feed: Address::zero(),
        accepted_stables: [Address::zero(); 4],
        accepted_stables_len: 0,
        sale_start_ts: 0,
        sale_end_ts: 0,
        current_round: 0,
        round_tokens_sold: [0],
        total_tokens_sold: 0,
        total_usd_raised_micro: 0,
        is_paused: false,
        is_finalized: false,
        is_claim_active: false,
        tge_timestamp: 0,
        bump: 0,
        vault_authority_bump: 0,
    }
}

fn fresh_state() -> PresaleState {
    let mut ctx = Initialize {
        admin: addr(ADMIN),
        presale_state: zero_state(),
        slam_mint: addr(MINT),
        token_vault: addr(TOKEN_VAULT),
        vault: addr(VAULT),
        sol_usd_price_feed: addr(FEED),
        presale_state_bump: 254,
        vault_authority_bump: 253,
    };
    slam::presale::initialize(&mut ctx, START, END, vec![addr(USDC), addr(USDT)]).unwrap();
    ctx.presale_state
}

fn empty_allocation() -> UserAllocation {
    UserAllocation {
        buyer: Address::zero(),
        total_purchased: 0,
        total_claimed: 0,
        paid_sol_lamports: 0,
        paid_stable_micro: 0,
        paid_sol_usd_micro: 0,
        bump: 0,
    }
}

fn stable_ctx(state: PresaleState) -> BuyWithStable {
    BuyWithStable {
        buyer: addr(BUYER),
        presale_state: state,
        user_allocation: empty_allocation(),
        user_allocation_bump: 250,
        stable_mint: addr(USDC),
    }
}

fn sol_ctx(state: PresaleState) -> BuyWithSol {
    BuyWithSol {
        buyer: addr(BUYER),
        presale_state: state,
        user_allocation: empty_allocation(),
        user_allocation_bump: 250,
        vault: addr(VAULT),
        price_feed: addr(FEED),
    }
}

/// $150.00 per SOL, published at `t`.
fn quote_at(t: i64) -> PriceQuote {
    PriceQuote { price: 15_000_000_000, conf: 1_000_000, expo: -8, publish_time: t }
}

#[test]
fn fractional_sol_does_not_truncate_to_zero() {
    let lamports: u64 = 500_000_000;
    let sol_price_micro_usd: u64 = 150_000_000;
    let usd_value_micro = mul_div_u64(lamports, sol_price_micro_usd, 1_000_000_000).unwrap();
    assert_eq!(usd_value_micro, 75_000_000);

    let round_price_micro_usd: u64 = 430;
    let slam_decimals_multiplier: u64 = 1_000_000;
    let tokens = mul_div_u64(usd_value_micro, slam_decimals_multiplier, round_price_micro_usd).unwrap();
    assert!(tokens > 0);
}

#[test]
fn rejects_zero_denominator() {
    assert!(mul_div_u64(100, 100, 0).is_err());
}

#[test]
fn rejects_overflow() {
    assert!(mul_div_u64(u64::MAX, u64::MAX, 1).is_err());
}

#[test]
fn mul_div_uses_wide_intermediate() {
    assert_eq!(mul_div_u64(u64::MAX, 3, 3), Ok(u64::MAX));
    assert_eq!(mul_div_u64(7, 3, 2), Ok(10));
    assert_eq!(mul_div_u64(u64::MAX, 2, 1), Err(PresaleError::MathOverflow));
}

#[test]
fn initialize_records_settings_and_pads_mints() {
    let st = fresh_state();
    assert_eq!(st.admin, addr(ADMIN));
    assert_eq!(st.vault, addr(VAULT));
    assert_eq!(st.accepted_stables, [addr(USDC), addr(USDT), Address::zero(), Address::zero()]);
    assert_eq!(st.accepted_stables_len, 2);
    assert_eq!(st.bump, 254);
    assert_eq!(st.vault_authority_bump, 253);
    assert_eq!(st.total_tokens_sold, 0);
    assert!(!st.is_paused && !st.is_finalized && !st.is_claim_active);
}

#[test]
fn initialize_rejects_bad_arguments() {
    let mut ctx = Initialize {
        admin: addr(ADMIN),
        presale_state: zero_state(),
        slam_mint: addr(MINT),
        token_vault: addr(TOKEN_VAULT),
        vault: addr(VAULT),
        sol_usd_price_feed: addr(FEED),
        presale_state_bump: 0,
        vault_authority_bump: 0,
    };
    let five = vec![addr(1), addr(2), addr(3), addr(4), addr(5)];
    assert_eq!(slam::presale::initialize(&mut ctx, START, END, five), Err(PresaleError::TooManyStables));
    assert_eq!(slam::presale::initialize(&mut ctx, END, END, vec![]), Err(PresaleError::InvalidSaleWindow));
    assert_eq!(ctx.presale_state.admin, Address::zero());
}

#[test]
fn stable_purchase_at_flat_price() {
    let mut ctx = stable_ctx(fresh_state());
    let ev = slam::presale::buy_with_stable(&mut ctx, 100_000_000, 1_500).unwrap();
    // $100 at $0.00030 per token: 333,333.333333 SLAM.
    assert_eq!(ev.tokens, 333_333_333_333);
    assert_eq!(ev.usd_value_micro, 100_000_000);
    assert_eq!(ev.paid_stable_micro, 100_000_000);
    assert_eq!(ev.paid_lamports, 0);
    assert_eq!(ctx.user_allocation.buyer, addr(BUYER));
    assert_eq!(ctx.user_allocation.bump, 250);
    assert_eq!(ctx.user_allocation.total_purchased, 333_333_333_333);
    assert_eq!(ctx.user_allocation.paid_stable_micro, 100_000_000);
    assert_eq!(ctx.presale_state.total_tokens_sold, 333_333_333_333);
    assert_eq!(ctx.presale_state.round_tokens_sold, [333_333_333_333]);
    assert_eq!(ctx.presale_state.total_usd_raised_micro, 100_000_000);
    assert_eq!(ctx.presale_state.current_round, 0);
}

#[test]
fn stable_purchase_errors() {
    let base = fresh_state();
    let mut ctx = stable_ctx(base);
    assert_eq!(slam::presale::buy_with_stable(&mut ctx, 0, 1_500), Err(PresaleError::ZeroAmount));
    assert_eq!(slam::presale::buy_with_stable(&mut ctx, 99_999_999, 1_500), Err(PresaleError::BelowMinimum));
    assert_eq!(slam::presale::buy_with_stable(&mut ctx, 100_000_000, START - 1), Err(PresaleError::NotStarted));
    assert_eq!(slam::presale::buy_with_stable(&mut ctx, 100_000_000, END + 1), Err(PresaleError::Ended));
    ctx.stable_mint = addr(99);
    assert_eq!(slam::presale::buy_with_stable(&mut ctx, 100_000_000, 1_500), Err(PresaleError::UnsupportedMint));
    // A zero-address mint is not accepted through the unused slots.
    ctx.stable_mint = Address::zero();
    assert_eq!(slam::presale::buy_with_stable(&mut ctx, 100_000_000, 1_500), Err(PresaleError::UnsupportedMint));
    let mut paused = stable_ctx(PresaleState { is_paused: true, ..base });
    assert_eq!(slam::presale::buy_with_stable(&mut paused, 100_000_000, 1_500), Err(PresaleError::Paused));
    // Nothing changed.
    assert_eq!(ctx.presale_state.total_tokens_sold, 0);
    assert_eq!(ctx.user_allocation.buyer, Address::zero());
}

#[test]
fn wallet_maximum_counts_requested_amount() {
    let mut ctx = stable_ctx(fresh_state());
    ctx.user_allocation.paid_stable_micro = MAX_PER_WALLET_MICRO_USD - 100_000_000;
    ctx.user_allocation.buyer = addr(BUYER);
    assert_eq!(
        slam::presale::buy_with_stable(&mut ctx, 100_000_001, 1_500),
        Err(PresaleError::AboveWalletMaximum)
    );
    let ev = slam::presale::buy_with_stable(&mut ctx, 100_000_000, 1_500).unwrap();
    assert_eq!(ev.paid_stable_micro, 100_000_000);
    assert_eq!(ctx.user_allocation.paid_stable_micro, MAX_PER_WALLET_MICRO_USD);
}

#[test]
fn last_purchase_is_clamped_to_the_round_remainder() {
    let mut st = fresh_state();
    let sold = ROUND_ALLOCATION_TOKENS - 1_000_000;
    st.round_tokens_sold = [sold];
    st.total_tokens_sold = sold;
    st.total_usd_raised_micro = 1_000;
    let mut ctx = stable_ctx(st);
    let ev = slam::presale::buy_with_stable(&mut ctx, 100_000_000, 1_500).unwrap();
    assert_eq!(ev.tokens, 1_000_000);
    assert_eq!(ev.usd_value_micro, 300);
    assert_eq!(ctx.presale_state.current_round, 1);
    assert_eq!(ctx.presale_state.total_tokens_sold, ROUND_ALLOCATION_TOKENS);
    assert_eq!(ctx.presale_state.total_usd_raised_micro, 1_300);
    assert_eq!(slam::presale::buy_with_stable(&mut ctx, 100_000_000, 1_500), Err(PresaleError::SoldOut));
}

#[test]
fn consume_purchase_reports_inconsistent_round() {
    let mut st = fresh_state();
    st.round_tokens_sold = [ROUND_ALLOCATION_TOKENS + 1];
    assert_eq!(st.consume_purchase(100_000_000, 1_500), Err(PresaleError::MathUnderflow));
    assert_eq!(st.round_price(0), 300);
    assert_eq!(st.assert_purchasable(1_500), Ok(()));
}

#[test]
fn sol_purchase_prices_with_fresh_quote() {
    let mut ctx = sol_ctx(fresh_state());
    let ev = slam::presale::buy_with_sol(&mut ctx, 1_000_000_000, Some(quote_at(1_490)), 1_500).unwrap();
    // 1 SOL at $150 buys $150 of SLAM at $0.00030.
    assert_eq!(ev.usd_value_micro, 150_000_000);
    assert_eq!(ev.tokens, 500_000_000_000);
    assert_eq!(ev.paid_lamports, 1_000_000_000);
    assert_eq!(ev.paid_stable_micro, 0);
    assert_eq!(ctx.user_allocation.paid_sol_lamports, 1_000_000_000);
    assert_eq!(ctx.user_allocation.paid_sol_usd_micro, 150_000_000);
    assert_eq!(ctx.presale_state.total_usd_raised_micro, 150_000_000);
}

#[test]
fn sol_purchase_charges_only_the_clamped_part() {
    let mut st = fresh_state();
    let sold = ROUND_ALLOCATION_TOKENS - 1_000_000_000;
    st.round_tokens_sold = [sold];
    st.total_tokens_sold = sold;
    let mut ctx = sol_ctx(st);
    let ev = slam::presale::buy_with_sol(&mut ctx, 2_000_000_000, Some(quote_at(1_500)), 1_500).unwrap();
    // 1,000 SLAM left: $0.30, i.e. 0.002 SOL.
    assert_eq!(ev.tokens, 1_000_000_000);
    assert_eq!(ev.usd_value_micro, 300_000);
    assert_eq!(ev.paid_lamports, 2_000_000);
    assert_eq!(ctx.presale_state.current_round, 1);
}

#[test]
fn sol_purchase_errors() {
    let st = fresh_state();
    let mut ctx = sol_ctx(st);
    // Stale both ways: the wrapper must not hand the quote back.
    assert_eq!(
        slam::presale::buy_with_sol(&mut ctx, 1_000_000_000, Some(quote_at(1_439)), 1_500),
        Err(PresaleError::StalePrice)
    );
    assert_eq!(
        slam::presale::buy_with_sol(&mut ctx, 1_000_000_000, Some(quote_at(1_561)), 1_500),
        Err(PresaleError::StalePrice)
    );
    assert!(slam::presale::buy_with_sol(&mut ctx, 1_000_000_000, Some(quote_at(1_560)), 1_500).is_ok());
    let mut ctx = sol_ctx(st);
    assert_eq!(slam::presale::buy_with_sol(&mut ctx, 0, Some(quote_at(1_500)), 1_500), Err(PresaleError::ZeroAmount));
    assert_eq!(slam::presale::buy_with_sol(&mut ctx, 1, None, 1_500), Err(PresaleError::InvalidPriceFeed));
    let bad = PriceQuote { price: 0, ..quote_at(1_500) };
    assert_eq!(slam::presale::buy_with_sol(&mut ctx, 1, Some(bad), 1_500), Err(PresaleError::InvalidPrice));
    assert_eq!(
        slam::presale::buy_with_sol(&mut ctx, 100_000, Some(quote_at(1_500)), 1_500),
        Err(PresaleError::BelowMinimum)
    );
    ctx.vault = addr(77);
    assert_eq!(slam::presale::buy_with_sol(&mut ctx, 1, Some(quote_at(1_500)), 1_500), Err(PresaleError::Unauthorized));
    ctx.vault = addr(VAULT);
    ctx.price_feed = addr(77);
    assert_eq!(
        slam::presale::buy_with_sol(&mut ctx, 1, Some(quote_at(1_500)), 1_500),
        Err(PresaleError::InvalidPriceFeed)
    );
    assert_eq!(ctx.presale_state.total_tokens_sold, 0);
}

#[test]
fn pyth_price_conversion() {
    assert_eq!(price_to_micro_usd(15_000_000_000, -8), Ok(150_000_000));
    assert_eq!(price_to_micro_usd(150, 0), Ok(150_000_000));
    assert_eq!(price_to_micro_usd(3, 20), Err(PresaleError::MathOverflow));
    assert_eq!(price_to_micro_usd(3, -30), Err(PresaleError::MathOverflow));
    assert_eq!(price_to_micro_usd(i64::MAX, 0), Err(PresaleError::MathOverflow));
    assert_eq!(checked_pow10(19), Some(10_000_000_000_000_000_000));
    assert_eq!(checked_pow10(20), None);
    assert_eq!(checked_pow10(0), Some(1));
}

#[test]
fn vesting_schedule() {
    let tge = 10_000;
    assert_eq!(total_vested_amount(1_000_000, tge, tge), Ok(0));
    assert_eq!(total_vested_amount(1_000_000, tge, tge - 5), Ok(0));
    assert_eq!(total_vested_amount(1_000_000, tge, tge + 1), Ok(200_000));
    assert_eq!(total_vested_amount(1_000_000, tge, tge + VESTING_DURATION_SECONDS / 2), Ok(600_000));
    assert_eq!(total_vested_amount(1_000_000, tge, tge + VESTING_DURATION_SECONDS - 1), Ok(999_999));
    assert_eq!(total_vested_amount(1_000_000, tge, tge + VESTING_DURATION_SECONDS), Ok(1_000_000));
    assert_eq!(total_vested_amount(1_000_000, i64::MIN, i64::MAX), Ok(1_000_000));
    assert_eq!(total_vested_amount(u64::MAX, tge, tge + 1), Ok(3_689_350_238_101_792_553));
}

fn claim_ctx(st: PresaleState) -> ClaimTokens {
    ClaimTokens {
        buyer: addr(BUYER),
        presale_state: st,
        user_allocation: UserAllocation {
            buyer: addr(BUYER),
            total_purchased: 1_000_000,
            total_claimed: 0,
            paid_sol_lamports: 0,
            paid_stable_micro: 0,
            paid_sol_usd_micro: 0,
            bump: 1,
        },
        token_vault: addr(TOKEN_VAULT),
        token_vault_amount: 10_000_000,
    }
}

#[test]
fn enable_then_claim_vested_tokens() {
    let mut en = EnableClaim {
        admin: addr(ADMIN),
        presale_state: fresh_state(),
        token_vault: addr(TOKEN_VAULT),
        token_vault_amount: 0,
    };
    // Claims wait for a finalized raise.
    assert_eq!(slam::presale::enable_claim(&mut en, 5_000), Err(PresaleError::NotFinalized));
    assert!(!en.presale_state.is_claim_active);
    en.presale_state.is_finalized = true;
    assert_eq!(slam::presale::enable_claim(&mut en, 5_000), Ok(()));
    assert!(en.presale_state.is_claim_active);
    assert_eq!(en.presale_state.tge_timestamp, 5_000);
    assert_eq!(slam::presale::enable_claim(&mut en, 6_000), Err(PresaleError::ClaimAlreadyActive));

    let mut ctx = claim_ctx(en.presale_state);
    let half = 5_000 + VESTING_DURATION_SECONDS / 2;
    assert_eq!(slam::presale::claim_tokens(&mut ctx, half), Ok(600_000));
    assert_eq!(ctx.user_allocation.total_claimed, 600_000);
    assert_eq!(slam::presale::claim_tokens(&mut ctx, half), Err(PresaleError::NothingToClaim));
    assert_eq!(slam::presale::claim_tokens(&mut ctx, 5_000 + VESTING_DURATION_SECONDS), Ok(400_000));
    assert_eq!(ctx.user_allocation.total_claimed, 1_000_000);
}

#[test]
fn claim_errors() {
    let mut st = fresh_state();
    let mut ctx = claim_ctx(st);
    assert_eq!(slam::presale::claim_tokens(&mut ctx, 9_999), Err(PresaleError::ClaimNotActive));
    st.is_claim_active = true;
    st.tge_timestamp = 100;
    let mut ctx = claim_ctx(st);
    assert_eq!(slam::presale::claim_tokens(&mut ctx, 100), Err(PresaleError::NothingToClaim));
    ctx.token_vault_amount = 10;
    assert_eq!(slam::presale::claim_tokens(&mut ctx, 101), Err(PresaleError::InsufficientVaultBalance));
    ctx.user_allocation.total_claimed = 500_000;
    assert_eq!(slam::presale::claim_tokens(&mut ctx, 101), Err(PresaleError::MathUnderflow));
    ctx.token_vault = addr(66);
    assert_eq!(slam::presale::claim_tokens(&mut ctx, 101), Err(PresaleError::Unauthorized));
    let mut other = claim_ctx(st);
    other.buyer = addr(66);
    assert_eq!(slam::presale::claim_tokens(&mut other, 101), Err(PresaleError::Unauthorized));
    let mut en = EnableClaim {
        admin: addr(ADMIN),
        presale_state: PresaleState { total_tokens_sold: 11, is_finalized: true, ..fresh_state() },
        token_vault: addr(TOKEN_VAULT),
        token_vault_amount: 10,
    };
    assert_eq!(slam::presale::enable_claim(&mut en, 1), Err(PresaleError::InsufficientVaultBalance));
    en.admin = addr(66);
    assert_eq!(slam::presale::enable_claim(&mut en, 1), Err(PresaleError::Unauthorized));
}

#[test]
fn finalize_after_soft_cap() {
    let st = PresaleState { total_usd_raised_micro: SOFT_CAP_MICRO_USD, ..fresh_state() };
    let mut ctx = Finalize { admin: addr(ADMIN), presale_state: st, escrow_amount: 7_000 };
    assert_eq!(slam::presale::finalize(&mut ctx, END), Err(PresaleError::SaleNotEnded));
    assert_eq!(slam::presale::finalize(&mut ctx, END + 1), Ok(7_000));
    assert!(ctx.presale_state.is_finalized);
    assert_eq!(slam::presale::finalize(&mut ctx, END + 2), Err(PresaleError::AlreadyFinalized));
    let mut below = Finalize {
        admin: addr(ADMIN),
        presale_state: PresaleState { total_usd_raised_micro: SOFT_CAP_MICRO_USD - 1, ..fresh_state() },
        escrow_amount: 0,
    };
    assert_eq!(slam::presale::finalize(&mut below, END + 1), Err(PresaleError::SoftCapNotReached));
    below.admin = addr(66);
    assert_eq!(slam::presale::finalize(&mut below, END + 1), Err(PresaleError::Unauthorized));
    // Once finalized, refunds are refused.
    let mut r = Refund {
        buyer: addr(BUYER),
        presale_state: ctx.presale_state,
        user_allocation: UserAllocation { buyer: addr(BUYER), paid_stable_micro: 5, ..empty_allocation() },
    };
    assert_eq!(slam::presale::refund(&mut r, END + 1), Err(PresaleError::SoftCapReached));
}

#[test]
fn refund_below_soft_cap_once() {
    let st = PresaleState { total_usd_raised_micro: 150_000_000, ..fresh_state() };
    let alloc = UserAllocation {
        buyer: addr(BUYER),
        total_purchased: 500_000_000_000,
        total_claimed: 0,
        paid_sol_lamports: 0,
        paid_stable_micro: 150_000_000,
        paid_sol_usd_micro: 0,
        bump: 9,
    };
    let mut ctx = Refund { buyer: addr(BUYER), presale_state: st, user_allocation: alloc };
    assert_eq!(slam::presale::refund(&mut ctx, END), Err(PresaleError::SaleNotEnded));
    assert_eq!(slam::presale::refund(&mut ctx, END + 1), Ok(150_000_000));
    assert_eq!(ctx.user_allocation.paid_stable_micro, 0);
    assert_eq!(ctx.user_allocation.total_purchased, 0);
    assert_eq!(slam::presale::refund(&mut ctx, END + 1), Err(PresaleError::NothingToRefund));
    let mut reached = Refund {
        buyer: addr(BUYER),
        presale_state: PresaleState { total_usd_raised_micro: SOFT_CAP_MICRO_USD, ..fresh_state() },
        user_allocation: alloc,
    };
    assert_eq!(slam::presale::refund(&mut reached, END + 1), Err(PresaleError::SoftCapReached));
    reached.buyer = addr(66);
    assert_eq!(slam::presale::refund(&mut reached, END + 1), Err(PresaleError::Unauthorized));
}

#[test]
fn admin_settings() {
    let mut ctx = AdminOnly { admin: addr(ADMIN), presale_state: fresh_state() };
    assert_eq!(slam::presale::set_paused(&mut ctx, true), Ok(()));
    assert!(ctx.presale_state.is_paused);
    assert_eq!(slam::presale::update_vault(&mut ctx, addr(20)), Ok(()));
    assert_eq!(ctx.presale_state.vault, addr(20));
    assert_eq!(slam::presale::update_price_feed(&mut ctx, addr(21)), Ok(()));
    assert_eq!(ctx.presale_state.sol_usd_price_feed, addr(21));
    assert_eq!(slam::presale::update_accepted_stables(&mut ctx, vec![addr(30)]), Ok(()));
    assert_eq!(ctx.presale_state.accepted_stables, [addr(30), Address::zero(), Address::zero(), Address::zero()]);
    assert_eq!(ctx.presale_state.accepted_stables_len, 1);
    assert_eq!(
        slam::presale::update_accepted_stables(&mut ctx, vec![addr(1), addr(2), addr(3), addr(4), addr(5)]),
        Err(PresaleError::TooManyStables)
    );
    let mut outsider = AdminOnly { admin: addr(66), presale_state: ctx.presale_state };
    assert_eq!(slam::presale::set_paused(&mut outsider, false), Err(PresaleError::Unauthorized));
    assert_eq!(slam::presale::update_vault(&mut outsider, addr(1)), Err(PresaleError::Unauthorized));
    assert_eq!(slam::presale::update_price_feed(&mut outsider, addr(1)), Err(PresaleError::Unauthorized));
    assert_eq!(slam::presale::update_accepted_stables(&mut outsider, vec![]), Err(PresaleError::Unauthorized));
    assert!(outsider.presale_state.is_paused);

    let mut t = TransferAdmin { admin: addr(ADMIN), presale_state: fresh_state() };
    assert_eq!(slam::presale::transfer_admin(&mut t, addr(40)), Ok(()));
    assert_eq!(t.presale_state.admin, addr(40));
    assert_eq!(slam::presale::transfer_admin(&mut t, addr(41)), Err(PresaleError::Unauthorized));
}

#[test]
fn close_only_before_any_sale() {
    let ctx = ClosePresaleState { admin: addr(ADMIN), presale_state: fresh_state() };
    assert_eq!(slam::presale::close_presale_state(&ctx), Ok(()));
    let sold = ClosePresaleState {
        admin: addr(ADMIN),
        presale_state: PresaleState { total_tokens_sold: 1, ..fresh_state() },
    };
    assert_eq!(slam::presale::close_presale_state(&sold), Err(PresaleError::StateNotEmpty));
    let outsider = ClosePresaleState { admin: addr(66), presale_state: fresh_state() };
    assert_eq!(slam::presale::close_presale_state(&outsider), Err(PresaleError::Unauthorized));
}

#[test]
fn usd_hard_cap_refuses_a_crossing_buy() {
    // Rounding dust has brought the raise to $100 below the cap while tokens
    // remain: a $100.000001 purchase would cross it.
    let mut st = fresh_state();
    st.total_usd_raised_micro = HARD_CAP_MICRO_USD - 100_000_000;
    let mut ctx = stable_ctx(st);
    assert_eq!(slam::presale::buy_with_stable(&mut ctx, 100_000_001, 1_500), Err(PresaleError::HardCapReached));
    assert_eq!(ctx.presale_state.total_usd_raised_micro, HARD_CAP_MICRO_USD - 100_000_000);
    // Exactly reaching the cap is allowed.
    let ev = slam::presale::buy_with_stable(&mut ctx, 100_000_000, 1_500).unwrap();
    assert_eq!(ev.usd_value_micro, 100_000_000);
    assert_eq!(ctx.presale_state.total_usd_raised_micro, HARD_CAP_MICRO_USD);
}

#[test]
fn usd_hard_cap_refuses_the_last_clamped_fill_past_it() {
    // Rounding dust has left 1,000 SLAM unsold with $1,499,999.700001 raised;
    // the clamped fill of the remainder costs $0.300000 and would end at
    // $1,500,000.000001.
    let mut st = fresh_state();
    let sold = ROUND_ALLOCATION_TOKENS - 1_000_000_000;
    st.round_tokens_sold = [sold];
    st.total_tokens_sold = sold;
    st.total_usd_raised_micro = HARD_CAP_MICRO_USD - 299_999;
    let mut ctx = stable_ctx(st);
    assert_eq!(slam::presale::buy_with_stable(&mut ctx, 100_000_000, 1_500), Err(PresaleError::HardCapReached));
    assert_eq!(ctx.presale_state.total_tokens_sold, sold);
}

#[test]
fn wallet_maximum_spans_sol_and_stable() {
    // $25,000 already paid in stables: a $150 SOL purchase is refused.
    let mut ctx = sol_ctx(fresh_state());
    ctx.user_allocation.buyer = addr(BUYER);
    ctx.user_allocation.paid_stable_micro = MAX_PER_WALLET_MICRO_USD;
    assert_eq!(
        slam::presale::buy_with_sol(&mut ctx, 1_000_000_000, Some(quote_at(1_500)), 1_500),
        Err(PresaleError::AboveWalletMaximum)
    );
    assert_eq!(ctx.user_allocation.paid_sol_lamports, 0);
    // $24,900 already paid with SOL: a $150 stable-coin purchase is refused,
    // a $100 one fills the wallet exactly.
    let mut st = stable_ctx(fresh_state());
    st.user_allocation.buyer = addr(BUYER);
    st.user_allocation.paid_sol_usd_micro = MAX_PER_WALLET_MICRO_USD - 100_000_000;
    assert_eq!(slam::presale::buy_with_stable(&mut st, 150_000_000, 1_500), Err(PresaleError::AboveWalletMaximum));
    assert!(slam::presale::buy_with_stable(&mut st, 100_000_000, 1_500).is_ok());
    assert_eq!(st.user_allocation.paid_stable_micro + st.user_allocation.paid_sol_usd_micro, MAX_PER_WALLET_MICRO_USD);
    // A SOL purchase worth exactly the rest of the wallet's room succeeds.
    let mut sol = sol_ctx(fresh_state());
    sol.user_allocation.paid_stable_micro = MAX_PER_WALLET_MICRO_USD - 150_000_000;
    assert!(slam::presale::buy_with_sol(&mut sol, 1_000_000_000, Some(quote_at(1_500)), 1_500).is_ok());
}

#[test]
fn claims_add_up_to_the_vested_amount() {
    let st = PresaleState { is_finalized: true, is_claim_active: true, tge_timestamp: 0, ..fresh_state() };
    let mut ctx = claim_ctx(st);
    let mut paid = 0;
    for t in [1, 86_400, 1_000_000, 5_000_000, VESTING_DURATION_SECONDS + 7] {
        paid += slam::presale::claim_tokens(&mut ctx, t).unwrap();
    }
    assert_eq!(paid, 1_000_000);
    assert_eq!(ctx.user_allocation.total_claimed, 1_000_000);
}
