//! Properties of the presale that span its instructions.
use vstd::prelude::*;

use crate::address::Address;
use crate::presale::constants::{
    HARD_CAP_MICRO_USD, LAMPORTS_PER_SOL, SOFT_CAP_MICRO_USD, MAX_ACCEPTED_STABLES, MAX_PER_WALLET_MICRO_USD, ROUND_ALLOCATION_TOKENS,
    SLAM_DECIMALS_MULTIPLIER, VESTING_DURATION_SECONDS,
};
use crate::presale::errors::PresaleError;
use crate::presale::instructions::buy_with_sol::{
    buy_with_sol_applied, buy_with_sol_result, BuyWithSol,
};
use crate::presale::instructions::buy_with_stable::{
    buy_with_stable_applied, buy_with_stable_result, BuyWithStable,
};
use crate::presale::instructions::claim_tokens::{claim_tokens_result, vested_now, ClaimTokens};
use crate::presale::instructions::initialize::{initialized_state, Initialize};
use crate::presale::instructions::enable_claim::{enable_claim_result, EnableClaim};
use crate::presale::instructions::finalize::{finalize_result, Finalize};
use crate::presale::instructions::refund::{refund_result, Refund};
use crate::presale::math::mul_div;
use crate::presale::oracle::{lemma_pow10_monotonic, micro_usd_price, pow10, PriceQuote};
use crate::presale::state::{
    lemma_vested_bounded, spec_round_price, tge_unlocked, vested_amount, PresaleState,
    UserAllocation,
};

verus! {

/// Law (token allocation and USD hard cap): a recorded purchase keeps a
/// well-formed presale state well-formed, so the tokens sold never exceed the
/// round's allocation and the USD raised never exceeds `HARD_CAP_MICRO_USD`.
pub proof fn lemma_purchase_preserves_wf(pre: PresaleState, post: PresaleState, usd: u64, now: i64)
    requires
        pre.wf(),
        pre.purchase_outcome(usd, now) is Ok,
        PresaleState::purchase_recorded(
            pre,
            post,
            pre.purchase_outcome(usd, now)->Ok_0.0,
            pre.purchase_outcome(usd, now)->Ok_0.1,
        ),
    ensures
        post.wf(),
        post.total_tokens_sold <= ROUND_ALLOCATION_TOKENS,
        post.total_usd_raised_micro <= HARD_CAP_MICRO_USD,
{
    assert(post.round_tokens_sold@[0] == pre.round_tokens_sold@[0]
        + pre.purchase_outcome(usd, now)->Ok_0.0);
}

/// Law (token allocation and USD hard cap, SOL purchases): a successful
/// `buy_with_sol` keeps a well-formed presale state well-formed.
pub proof fn lemma_buy_with_sol_preserves_wf(
    pre: BuyWithSol,
    post: BuyWithSol,
    max_sol_lamports: u64,
    quote: Option<PriceQuote>,
    now: i64,
)
    requires
        pre.presale_state.wf(),
        buy_with_sol_result(pre, max_sol_lamports, quote, now) is Ok,
        buy_with_sol_applied(pre, post, buy_with_sol_result(pre, max_sol_lamports, quote, now)->Ok_0),
    ensures
        post.presale_state.wf(),
{
    let q = quote->Some_0;
    let sol_price = micro_usd_price(q.price as int, q.expo as int)->Some_0;
    let usd = mul_div(max_sol_lamports as int, sol_price, LAMPORTS_PER_SOL as int);
    lemma_purchase_preserves_wf(pre.presale_state, post.presale_state, usd as u64, now);
}

/// Law (token allocation and USD hard cap, stable-coin purchases): a
/// successful `buy_with_stable` keeps a well-formed presale state
/// well-formed.
pub proof fn lemma_buy_with_stable_preserves_wf(
    pre: BuyWithStable,
    post: BuyWithStable,
    stable_amount: u64,
    now: i64,
)
    requires
        pre.presale_state.wf(),
        buy_with_stable_result(pre, stable_amount, now) is Ok,
        buy_with_stable_applied(pre, post, buy_with_stable_result(pre, stable_amount, now)->Ok_0),
    ensures
        post.presale_state.wf(),
{
    lemma_purchase_preserves_wf(pre.presale_state, post.presale_state, stable_amount, now);
}

/// Law (token allocation and USD hard cap, other instructions): an
/// instruction that leaves the sales counters alone and accepts at most `MAX_ACCEPTED_STABLES` mints (every
/// presale instruction but the two purchases, by their contracts) keeps a
/// well-formed presale state well-formed.
pub proof fn lemma_settings_change_preserves_wf(pre: PresaleState, post: PresaleState)
    requires
        pre.wf(),
        post.round_tokens_sold == pre.round_tokens_sold,
        post.total_tokens_sold == pre.total_tokens_sold,
        post.total_usd_raised_micro == pre.total_usd_raised_micro,
        post.current_round == pre.current_round,
        post.accepted_stables_len as int <= MAX_ACCEPTED_STABLES,
    ensures
        post.wf(),
{
}

/// Law (USD hard cap at buy time): whatever the state, a purchase succeeds
/// only if the USD raised, with its charge, stays within the hard cap.
pub proof fn lemma_purchase_within_hard_cap(st: PresaleState, usd: u64, now: i64)
    requires
        st.purchase_outcome(usd, now) is Ok,
    ensures
        st.total_usd_raised_micro + st.purchase_outcome(usd, now)->Ok_0.1 <= HARD_CAP_MICRO_USD,
{
}

/// Law (fair fill): a successful purchase grants at least one token unit, at
/// most what is left in the round, charges no more than was offered, and
/// prices the tokens at the round price up to rounding:
/// `charged * 1e6 - price < tokens * price < (charged + 1) * 1e6`.
pub proof fn lemma_purchase_priced_at_round_price(st: PresaleState, usd: u64, now: i64)
    requires
        st.wf(),
        st.purchase_outcome(usd, now) is Ok,
    ensures
        ({
            let (tokens, charged) = st.purchase_outcome(usd, now)->Ok_0;
            let price = spec_round_price(st.current_round as int);
            &&& 0 < tokens <= st.round_remaining()
            &&& charged <= usd
            &&& charged * SLAM_DECIMALS_MULTIPLIER - price < tokens * price
            &&& tokens * price < (charged + 1) * SLAM_DECIMALS_MULTIPLIER
        }),
{
    let (tokens, charged) = st.purchase_outcome(usd, now)->Ok_0;
    let price = spec_round_price(st.current_round as int);
    assert(price == 300);
    let desired = (usd as int) * 1_000_000 / 300;
    let remaining = st.round_remaining();
    assert(desired >= 333_333_333_333) by (nonlinear_arith)
        requires desired == (usd as int) * 1_000_000 / 300, usd >= 100_000_000;
    if desired >= remaining {
        assert(tokens == remaining);
        assert(charged == remaining * 300 / 1_000_000);
        assert(remaining > 0);
        assert(charged * 1_000_000 <= remaining * 300 < (charged + 1) * 1_000_000) by (nonlinear_arith)
            requires charged == remaining * 300 / 1_000_000, remaining >= 0;
        assert(charged <= usd) by (nonlinear_arith)
            requires charged * 1_000_000 <= remaining * 300, remaining <= desired,
                desired == (usd as int) * 1_000_000 / 300, usd >= 0, remaining >= 0;
    } else {
        assert(tokens == desired);
        assert(charged == usd);
        assert(desired * 300 <= (usd as int) * 1_000_000 < (desired + 1) * 300) by (nonlinear_arith)
            requires desired == (usd as int) * 1_000_000 / 300, usd >= 0;
    }
}

/// A positive Pyth price converts to a non-negative micro-USD price.
proof fn lemma_micro_usd_price_nonnegative(price: int, expo: int)
    requires
        price > 0,
        micro_usd_price(price, expo) is Some,
    ensures
        micro_usd_price(price, expo)->Some_0 >= 0,
{
    let shift = expo + 6;
    if shift >= 0 {
        lemma_pow10_monotonic(0, shift as nat);
        assert(price * pow10(shift as nat) >= 0) by (nonlinear_arith)
            requires price > 0, pow10(shift as nat) > 0;
    } else {
        lemma_pow10_monotonic(0, (-shift) as nat);
        assert(price / pow10((-shift) as nat) >= 0) by (nonlinear_arith)
            requires price > 0, pow10((-shift) as nat) > 0;
    }
}

/// Law (pay only for what is received): a SOL purchase never charges more
/// lamports than the buyer offered, also when the round clamps the order.
pub proof fn lemma_sol_purchase_within_offer(
    pre: BuyWithSol,
    max_sol_lamports: u64,
    quote: Option<PriceQuote>,
    now: i64,
)
    requires
        pre.presale_state.wf(),
        buy_with_sol_result(pre, max_sol_lamports, quote, now) is Ok,
    ensures
        buy_with_sol_result(pre, max_sol_lamports, quote, now)->Ok_0.paid_lamports
            <= max_sol_lamports,
{
    let q = quote->Some_0;
    let p = micro_usd_price(q.price as int, q.expo as int)->Some_0;
    let usd = mul_div(max_sol_lamports as int, p, LAMPORTS_PER_SOL as int);
    lemma_purchase_priced_at_round_price(pre.presale_state, usd as u64, now);
    let charged = pre.presale_state.purchase_outcome(usd as u64, now)->Ok_0.1;
    let m = max_sol_lamports as int;
    lemma_micro_usd_price_nonnegative(q.price as int, q.expo as int);
    assert(p != 0);
    assert(p > 0);
    assert(0 <= usd * 1_000_000_000 <= m * p) by (nonlinear_arith)
        requires usd == m * p / 1_000_000_000, m >= 0, p > 0;
    assert(charged * 1_000_000_000 / p <= m) by (nonlinear_arith)
        requires 0 <= charged <= usd, usd * 1_000_000_000 <= m * p, p > 0;
}

/// Law (wallet maximum, stable-coin purchases): after a stable-coin
/// purchase, the wallet's contribution over both payment methods is within
/// `MAX_PER_WALLET_MICRO_USD`.
pub proof fn lemma_stable_purchase_within_wallet_maximum(
    pre: BuyWithStable,
    post: BuyWithStable,
    stable_amount: u64,
    now: i64,
)
    requires
        pre.presale_state.wf(),
        buy_with_stable_result(pre, stable_amount, now) is Ok,
        buy_with_stable_applied(pre, post, buy_with_stable_result(pre, stable_amount, now)->Ok_0),
    ensures
        post.user_allocation.contribution() <= MAX_PER_WALLET_MICRO_USD,
{
    lemma_purchase_priced_at_round_price(pre.presale_state, stable_amount, now);
}

/// Law (wallet maximum, SOL purchases): after a SOL purchase, the wallet's
/// contribution over both payment methods is within
/// `MAX_PER_WALLET_MICRO_USD`.
pub proof fn lemma_sol_purchase_within_wallet_maximum(
    pre: BuyWithSol,
    post: BuyWithSol,
    max_sol_lamports: u64,
    quote: Option<PriceQuote>,
    now: i64,
)
    requires
        pre.presale_state.wf(),
        buy_with_sol_result(pre, max_sol_lamports, quote, now) is Ok,
        buy_with_sol_applied(pre, post, buy_with_sol_result(pre, max_sol_lamports, quote, now)->Ok_0),
    ensures
        post.user_allocation.contribution() <= MAX_PER_WALLET_MICRO_USD,
{
    let q = quote->Some_0;
    let sol_price = micro_usd_price(q.price as int, q.expo as int)->Some_0;
    let usd = mul_div(max_sol_lamports as int, sol_price, LAMPORTS_PER_SOL as int);
    lemma_purchase_priced_at_round_price(pre.presale_state, usd as u64, now);
    lemma_micro_usd_price_nonnegative(q.price as int, q.expo as int);
    assert(usd >= 0) by (nonlinear_arith)
        requires usd == (max_sol_lamports as int) * sol_price / 1_000_000_000, sol_price >= 0;
    let ev = buy_with_sol_result(pre, max_sol_lamports, quote, now)->Ok_0;
    assert(pre.user_allocation.contribution() + usd <= MAX_PER_WALLET_MICRO_USD);
    assert(ev.usd_value_micro == pre.presale_state.purchase_outcome(usd as u64, now)->Ok_0.1);
    assert(ev.usd_value_micro <= usd);
}

/// Law (vesting grows): the vested amount never decreases as time passes.
pub proof fn lemma_vesting_monotonic(total_purchased: int, tge_timestamp: int, now1: int, now2: int)
    requires
        0 <= total_purchased,
        now1 <= now2,
    ensures
        vested_amount(total_purchased, tge_timestamp, now1) <= vested_amount(
            total_purchased,
            tge_timestamp,
            now2,
        ),
{
    lemma_vested_bounded(total_purchased, tge_timestamp, now1);
    lemma_vested_bounded(total_purchased, tge_timestamp, now2);
    if now1 > tge_timestamp && now2 - tge_timestamp < VESTING_DURATION_SECONDS {
        let tge = tge_unlocked(total_purchased);
        let rest = total_purchased - tge;
        assert(0 <= tge <= total_purchased) by (nonlinear_arith)
            requires tge == total_purchased * 2000 / 10000, 0 <= total_purchased;
        let e1 = now1 - tge_timestamp;
        let e2 = now2 - tge_timestamp;
        assert(rest * e1 / (VESTING_DURATION_SECONDS as int) <= rest * e2 / (
        VESTING_DURATION_SECONDS as int)) by (nonlinear_arith)
            requires 0 < e1 <= e2, 0 <= rest;
    }
}

/// Law (vesting schedule): nothing is vested up to the TGE timestamp, at
/// least the TGE share right after it, and everything once the vesting
/// duration has elapsed.
pub proof fn lemma_vesting_schedule(total_purchased: int, tge_timestamp: int, now: int)
    requires
        0 <= total_purchased,
    ensures
        now <= tge_timestamp ==> vested_amount(total_purchased, tge_timestamp, now) == 0,
        now > tge_timestamp ==> vested_amount(total_purchased, tge_timestamp, now) >= tge_unlocked(
            total_purchased,
        ),
        now >= tge_timestamp + VESTING_DURATION_SECONDS ==> vested_amount(
            total_purchased,
            tge_timestamp,
            now,
        ) == total_purchased,
{
    if now > tge_timestamp && now - tge_timestamp < VESTING_DURATION_SECONDS {
        let tge = tge_unlocked(total_purchased);
        assert(0 <= tge <= total_purchased) by (nonlinear_arith)
            requires tge == total_purchased * 2000 / 10000, 0 <= total_purchased;
        assert((total_purchased - tge) * (now - tge_timestamp) / (VESTING_DURATION_SECONDS as int)
            >= 0) by (nonlinear_arith)
            requires total_purchased - tge >= 0, now - tge_timestamp > 0;
    }
    if now > tge_timestamp && now - tge_timestamp >= VESTING_DURATION_SECONDS {
        assert(tge_unlocked(total_purchased) <= total_purchased) by (nonlinear_arith)
            requires 0 <= total_purchased;
    }
}

/// Law (no double claim): right after a successful claim, claiming again at
/// the same time pays nothing: it is refused with `NothingToClaim`.
pub proof fn lemma_claim_twice_pays_nothing(pre: ClaimTokens, post: ClaimTokens, now: i64)
    requires
        claim_tokens_result(pre, now) is Ok,
        post == (ClaimTokens {
            user_allocation: UserAllocation {
                total_claimed: (pre.user_allocation.total_claimed + claim_tokens_result(
                    pre,
                    now,
                )->Ok_0) as u64,
                ..pre.user_allocation
            },
            ..pre
        }),
    ensures
        claim_tokens_result(post, now) == Err::<u64, PresaleError>(PresaleError::NothingToClaim),
{
    lemma_vested_bounded(
        pre.user_allocation.total_purchased as int,
        pre.presale_state.tge_timestamp as int,
        now as int,
    );
}

/// Law (refund once): after a successful refund, the allocation has nothing
/// left to refund, so any later refund is refused.
pub proof fn lemma_refund_once(pre: Refund, now: i64, later: i64)
    requires
        refund_result(pre, now) is Ok,
    ensures
        refund_result(
            Refund {
                user_allocation: UserAllocation {
                    paid_stable_micro: 0,
                    total_purchased: 0,
                    ..pre.user_allocation
                },
                ..pre
            },
            later,
        ) is Err,
{
}

/// Law (success or refund, never both): for one presale state, if the raise
/// can be finalized then no buyer can refund, and after finalizing no refund
/// is ever possible.
pub proof fn lemma_finalize_excludes_refund(f: Finalize, r: Refund, now: i64, later: i64)
    requires
        finalize_result(f, now) is Ok,
    ensures
        r.presale_state == f.presale_state ==> refund_result(r, later) is Err,
        r.presale_state == (PresaleState { is_finalized: true, ..f.presale_state })
            ==> refund_result(r, later) is Err,
{
}

/// Law (claims follow a successful raise): claiming can only be enabled on a
/// finalized raise, so once claims are active no buyer can refund.
pub proof fn lemma_claims_only_after_finalize(e: EnableClaim, tge_timestamp: i64, r: Refund, later: i64)
    requires
        enable_claim_result(e) is Ok,
    ensures
        e.presale_state.is_finalized,
        r.presale_state == (PresaleState {
            is_claim_active: true,
            tge_timestamp: tge_timestamp,
            ..e.presale_state
        }) ==> refund_result(r, later) is Err,
{
}

/// The accounts after a successful `claim_tokens` at `now`, as its contract
/// gives them: `total_claimed` grows by the amount paid.
pub open spec fn claim_step(pre: ClaimTokens, now: i64) -> ClaimTokens {
    ClaimTokens {
        user_allocation: UserAllocation {
            total_claimed: (pre.user_allocation.total_claimed + claim_tokens_result(
                pre,
                now,
            )->Ok_0) as u64,
            ..pre.user_allocation
        },
        ..pre
    }
}

/// `states[i + 1]` is `states[i]` after a successful claim at `times[i]`,
/// for every claim in the sequence.
pub open spec fn claims_chain(states: Seq<ClaimTokens>, times: Seq<i64>) -> bool {
    &&& states.len() == times.len() + 1
    &&& forall|i: int|
        0 <= i < times.len() ==> claim_tokens_result(states[i], #[trigger] times[i]) is Ok
            && states[i + 1] == claim_step(states[i], times[i])
}

/// The total paid by the first `n` claims of a chain.
pub open spec fn claims_paid(states: Seq<ClaimTokens>, times: Seq<i64>, n: nat) -> int
    decreases n,
{
    if n == 0 {
        0
    } else {
        claims_paid(states, times, (n - 1) as nat) + claim_tokens_result(
            states[n - 1],
            times[n - 1],
        )->Ok_0
    }
}

/// The first `n` claims of a chain pay out exactly what vested by the last
/// of them beyond what was claimed before, and leave everything else alone.
proof fn lemma_claims_prefix(states: Seq<ClaimTokens>, times: Seq<i64>, n: nat)
    requires
        claims_chain(states, times),
        1 <= n <= times.len(),
    ensures
        states[n as int].presale_state == states[0].presale_state,
        states[n as int].user_allocation.total_purchased == states[0].user_allocation.total_purchased,
        states[n as int].user_allocation.total_claimed == vested_now(states[0], times[n - 1]),
        claims_paid(states, times, n) == vested_now(states[0], times[n - 1])
            - states[0].user_allocation.total_claimed,
    decreases n,
{
    let k = n - 1;
    assert(claim_tokens_result(states[k], times[k]) is Ok);
    lemma_vested_bounded(
        states[k].user_allocation.total_purchased as int,
        states[k].presale_state.tge_timestamp as int,
        times[k] as int,
    );
    if n > 1 {
        lemma_claims_prefix(states, times, (n - 1) as nat);
    } else {
        assert(claims_paid(states, times, 0) == 0);
    }
    assert(vested_now(states[k as int], times[k as int]) == vested_now(states[0], times[k as int]));
    assert(claim_tokens_result(states[k as int], times[k as int])->Ok_0 == vested_now(
        states[k as int],
        times[k as int],
    ) - states[k as int].user_allocation.total_claimed);
    assert(claims_paid(states, times, n) == claims_paid(states, times, (n - 1) as nat)
        + claim_tokens_result(states[k as int], times[k as int])->Ok_0);
}

/// Law (claims add up): over any number of successful claims, the amounts
/// paid sum to what has vested at the last claim minus what was claimed
/// before the first, and the allocation's `total_claimed` then equals that
/// vested amount, never more than was purchased.
pub proof fn lemma_claims_telescope(states: Seq<ClaimTokens>, times: Seq<i64>)
    requires
        claims_chain(states, times),
        times.len() >= 1,
    ensures
        claims_paid(states, times, times.len()) == vested_now(states[0], times.last())
            - states[0].user_allocation.total_claimed,
        states.last().user_allocation.total_claimed == vested_now(states[0], times.last()),
        vested_now(states[0], times.last()) <= states[0].user_allocation.total_purchased,
{
    lemma_claims_prefix(states, times, times.len());
    lemma_vested_bounded(
        states[0].user_allocation.total_purchased as int,
        states[0].presale_state.tge_timestamp as int,
        times.last() as int,
    );
}

/// Law (what is sold is credited): a successful SOL purchase credits the
/// buyer's allocation with exactly the tokens it sold, the same amount the
/// presale's total sold grows by, and records the lamports it charged.
pub proof fn lemma_sol_purchase_credits_buyer(
    pre: BuyWithSol,
    max_sol_lamports: u64,
    quote: Option<PriceQuote>,
    now: i64,
    post: BuyWithSol,
)
    requires
        buy_with_sol_result(pre, max_sol_lamports, quote, now) is Ok,
        buy_with_sol_applied(pre, post, buy_with_sol_result(pre, max_sol_lamports, quote, now)->Ok_0),
    ensures
        ({
            let ev = buy_with_sol_result(pre, max_sol_lamports, quote, now)->Ok_0;
            &&& post.user_allocation.total_purchased == pre.user_allocation.total_purchased + ev.tokens
            &&& post.presale_state.total_tokens_sold - pre.presale_state.total_tokens_sold
                == post.user_allocation.total_purchased - pre.user_allocation.total_purchased
            &&& post.user_allocation.paid_sol_lamports == pre.user_allocation.paid_sol_lamports
                + ev.paid_lamports
            &&& post.user_allocation.paid_stable_micro == pre.user_allocation.paid_stable_micro
        }),
{
    let ev = buy_with_sol_result(pre, max_sol_lamports, quote, now)->Ok_0;
    let q = quote->Some_0;
    let sol_price = micro_usd_price(q.price as int, q.expo as int)->Some_0;
    let usd = mul_div(max_sol_lamports as int, sol_price, LAMPORTS_PER_SOL as int);
    let outcome = pre.presale_state.purchase_outcome(usd as u64, now)->Ok_0;
    let alloc = crate::presale::instructions::buy_with_sol::allocation_for(
        pre.user_allocation,
        pre.buyer,
        pre.user_allocation_bump,
    );
    lemma_micro_usd_price_nonnegative(q.price as int, q.expo as int);
    let charged = outcome.1;
    assert(sol_price > 0);
    let lamports_num = charged as int * (LAMPORTS_PER_SOL as int);
    assert(lamports_num >= 0) by (nonlinear_arith)
        requires charged >= 0, LAMPORTS_PER_SOL > 0, lamports_num == charged as int * (LAMPORTS_PER_SOL as int);
    assert(lamports_num / sol_price >= 0) by (nonlinear_arith)
        requires lamports_num >= 0, sol_price > 0;
    assert(ev.tokens == outcome.0);
    assert(alloc.total_purchased + ev.tokens <= u64::MAX);
    assert(alloc.paid_sol_lamports + ev.paid_lamports <= u64::MAX);
}

/// Law (what is sold is credited): a successful stable-coin purchase credits
/// the buyer's allocation with exactly the tokens it sold, the same amount the
/// presale's total sold grows by, and records the stable-coin it charged.
pub proof fn lemma_stable_purchase_credits_buyer(
    pre: BuyWithStable,
    stable_amount: u64,
    now: i64,
    post: BuyWithStable,
)
    requires
        buy_with_stable_result(pre, stable_amount, now) is Ok,
        buy_with_stable_applied(pre, post, buy_with_stable_result(pre, stable_amount, now)->Ok_0),
    ensures
        ({
            let ev = buy_with_stable_result(pre, stable_amount, now)->Ok_0;
            &&& post.user_allocation.total_purchased == pre.user_allocation.total_purchased + ev.tokens
            &&& post.presale_state.total_tokens_sold - pre.presale_state.total_tokens_sold
                == post.user_allocation.total_purchased - pre.user_allocation.total_purchased
            &&& post.user_allocation.paid_stable_micro == pre.user_allocation.paid_stable_micro
                + ev.paid_stable_micro
            &&& post.user_allocation.paid_sol_lamports == pre.user_allocation.paid_sol_lamports
        }),
{
}

/// Law (every listed stable-coin is accepted): a stable-coin purchase paid
/// with any of the first `accepted_stables_len` listed mints passes the mint
/// check.
pub proof fn lemma_listed_stable_accepted(ctx: BuyWithStable, stable_amount: u64, now: i64, i: int)
    requires
        stable_amount > 0,
        0 <= i < ctx.presale_state.accepted_stables_len,
        ctx.presale_state.accepted_stables@[i] == ctx.stable_mint,
    ensures
        buy_with_stable_result(ctx, stable_amount, now) != Err::<
            crate::presale::instructions::buy_with_sol::PurchaseEvent,
            PresaleError,
        >(PresaleError::UnsupportedMint),
{
}

/// Law (only listed stable-coins are accepted): a stable-coin purchase paid
/// with a mint that is none of the first `accepted_stables_len` listed mints
/// is refused with `UnsupportedMint`.
pub proof fn lemma_unlisted_stable_refused(ctx: BuyWithStable, stable_amount: u64, now: i64)
    requires
        stable_amount > 0,
        forall|i: int|
            0 <= i < ctx.presale_state.accepted_stables_len ==> ctx.presale_state.accepted_stables@[i]
                != ctx.stable_mint,
    ensures
        buy_with_stable_result(ctx, stable_amount, now) == Err::<
            crate::presale::instructions::buy_with_sol::PurchaseEvent,
            PresaleError,
        >(PresaleError::UnsupportedMint),
{
}

/// Law (the mints given at setup are the accepted ones): right after
/// `initialize` with the list `mints`, paying with any mint of that list
/// passes the mint check of a stable-coin purchase.
pub proof fn lemma_initialized_stables_accepted(
    init: Initialize,
    sale_start_ts: i64,
    sale_end_ts: i64,
    mints: Seq<Address>,
    ctx: BuyWithStable,
    stable_amount: u64,
    now: i64,
    j: int,
)
    requires
        mints.len() <= MAX_ACCEPTED_STABLES,
        initialized_state(init, sale_start_ts, sale_end_ts, mints, ctx.presale_state),
        0 <= j < mints.len(),
        ctx.stable_mint == mints[j],
        stable_amount > 0,
    ensures
        buy_with_stable_result(ctx, stable_amount, now) != Err::<
            crate::presale::instructions::buy_with_sol::PurchaseEvent,
            PresaleError,
        >(PresaleError::UnsupportedMint),
{
    assert(ctx.presale_state.accepted_stables@[j] == mints[j]);
    lemma_listed_stable_accepted(ctx, stable_amount, now, j);
}

/// Law (full vesting pays everything): a successful claim once the vesting
/// duration has elapsed since the TGE brings what the buyer has claimed up to
/// everything the buyer purchased.
pub proof fn lemma_full_vesting_claim_pays_all(pre: ClaimTokens, now: i64)
    requires
        claim_tokens_result(pre, now) is Ok,
        now >= pre.presale_state.tge_timestamp + VESTING_DURATION_SECONDS,
    ensures
        pre.user_allocation.total_claimed + claim_tokens_result(pre, now)->Ok_0
            == pre.user_allocation.total_purchased,
{
    lemma_vesting_schedule(
        pre.user_allocation.total_purchased as int,
        pre.presale_state.tge_timestamp as int,
        now as int,
    );
}

/// Law (a refund returns the stable-coin paid): a refund succeeds only after
/// the sale window closed below the soft cap on a raise that was never
/// finalized, and returns exactly the buyer's stable-coin contribution.
pub proof fn lemma_refund_returns_stable_contribution(pre: Refund, now: i64)
    requires
        refund_result(pre, now) is Ok,
    ensures
        refund_result(pre, now)->Ok_0 == pre.user_allocation.paid_stable_micro,
        refund_result(pre, now)->Ok_0 > 0,
        now > pre.presale_state.sale_end_ts,
        pre.presale_state.total_usd_raised_micro < SOFT_CAP_MICRO_USD,
        !pre.presale_state.is_finalized,
        pre.user_allocation.buyer == pre.buyer,
{
}

} // verus!
