//! Properties of staking that span its instructions.
use vstd::prelude::*;
use vstd::arithmetic::div_mod::lemma_div_denominator;

use crate::staking::constants::{
    NUM_TIERS, SECONDS_PER_YEAR, TIER_EARLY_PENALTY_BPS, TIER_LOCK_SECONDS,
};
use crate::staking::errors::StakingError;
use crate::staking::state::{accrued, tier_apy, StakeAccount, StakingConfig};
use crate::staking::{
    claim_result, early_penalty, is_early, new_stake, stake_result, unstake_result, Claim, Stake,
    Unstake,
};

verus! {

/// Law (principal conservation): an unstake splits the principal exactly
/// into the penalty and what the owner gets back; the penalty is zero unless
/// the unstake is early, and never more than 15% of the principal.
pub proof fn lemma_unstake_conserves_principal(ctx: Unstake, now: i64)
    requires
        unstake_result(ctx, now) is Ok,
        ctx.stake_account.tier < NUM_TIERS,
    ensures
        ({
            let p = unstake_result(ctx, now)->Ok_0;
            &&& p.penalty + p.principal == ctx.stake_account.amount
            &&& !is_early(ctx.stake_account, now) ==> p.penalty == 0
            &&& p.penalty * 10_000 <= ctx.stake_account.amount * 1500
        }),
{
    let s = ctx.stake_account;
    let bps = if is_early(s, now) { crate::staking::tier_penalty_bps(s.tier as int) } else { 0 };
    assert(0 <= bps <= 1500);
    if is_early(s, now) {
        assert(0 <= early_penalty(s, now) <= s.amount) by (nonlinear_arith)
            requires early_penalty(s, now) == s.amount * bps / 10_000, 0 <= bps <= 1500,
                s.amount >= 0;
        assert(early_penalty(s, now) * 10_000 <= s.amount * 1500) by (nonlinear_arith)
            requires early_penalty(s, now) == s.amount * bps / 10_000, 0 <= bps <= 1500,
                s.amount >= 0;
    }
}

/// Law (rewards grow with time): for a fixed stake, the accrued reward never
/// decreases as `now` advances.
pub proof fn lemma_reward_monotonic(amount: int, tier: int, last_claim: int, now1: int, now2: int)
    requires
        0 <= amount,
        0 <= tier < NUM_TIERS,
        now1 <= now2,
    ensures
        accrued(amount, tier, last_claim, now1) <= accrued(amount, tier, last_claim, now2),
{
    let apy = tier_apy(tier);
    assert(0 < apy <= 1200);
    if now1 > last_claim && amount != 0 {
        let e1 = now1 - last_claim;
        let e2 = now2 - last_claim;
        assert(amount * apy * e1 / 10_000 / 31_536_000 <= amount * apy * e2 / 10_000 / 31_536_000)
            by (nonlinear_arith)
            requires 0 < e1 <= e2, 0 <= amount, 0 < apy;
    } else {
        let e2 = now2 - last_claim;
        if now2 > last_claim && amount != 0 {
            assert(amount * apy * e2 / 10_000 / 31_536_000 >= 0) by (nonlinear_arith)
                requires 0 < e2, 0 <= amount, 0 < apy;
        }
    }
}

/// Law (APY): a full year of staking accrues exactly the tier's APY on the
/// principal, `amount * apy_bps / 10_000` rounded down.
pub proof fn lemma_full_year_reward(amount: int, tier: int, last_claim: int)
    requires
        0 < amount,
        0 <= tier < NUM_TIERS,
    ensures
        accrued(amount, tier, last_claim, last_claim + SECONDS_PER_YEAR) == amount * tier_apy(tier)
            / 10_000,
{
    let x = amount * tier_apy(tier);
    assert(x * 31_536_000 / 10_000 / 31_536_000 == x / 10_000) by (nonlinear_arith)
        requires x >= 0;
    assert(amount * tier_apy(tier) * 31_536_000 == x * 31_536_000);
}

/// Law (claiming resets the clock): right after a successful claim,
/// claiming again at the same time pays nothing.
pub proof fn lemma_claim_restarts_accrual(pre: Claim, now: i64)
    requires
        claim_result(pre, now) is Ok,
    ensures
        claim_result(
            Claim {
                stake_account: StakeAccount {
                    last_claim: now,
                    reward_claimed: (pre.stake_account.reward_claimed + claim_result(
                        pre,
                        now,
                    )->Ok_0) as u64,
                    ..pre.stake_account
                },
                ..pre
            },
            now,
        ) == Ok::<u64, crate::staking::errors::StakingError>(0),
{
}

/// Law (claiming in pieces never pays more): the rewards of two consecutive
/// periods add up to at most the reward of the whole period.
pub proof fn lemma_split_claims_never_pay_more(amount: int, tier: int, last_claim: int, mid: int, now: int)
    requires
        0 <= amount,
        0 <= tier < NUM_TIERS,
        last_claim <= mid <= now,
    ensures
        accrued(amount, tier, last_claim, mid) + accrued(amount, tier, mid, now) <= accrued(
            amount,
            tier,
            last_claim,
            now,
        ),
{
    let x = amount * tier_apy(tier);
    assert(0 < tier_apy(tier) <= 1200);
    assert(0 <= x) by (nonlinear_arith)
        requires 0 <= amount, 0 < tier_apy(tier), x == amount * tier_apy(tier);
    if amount != 0 {
        let a = mid - last_claim;
        let b = now - mid;
        assert(x * a >= 0 && x * b >= 0) by (nonlinear_arith)
            requires x >= 0, a >= 0, b >= 0;
        lemma_div_denominator(x * a, 10_000, 31_536_000);
        lemma_div_denominator(x * b, 10_000, 31_536_000);
        lemma_div_denominator(x * (a + b), 10_000, 31_536_000);
        assert(x * a / 315_360_000_000 + x * b / 315_360_000_000 <= x * (a + b) / 315_360_000_000)
            by (nonlinear_arith)
            requires x >= 0, a >= 0, b >= 0;
        assert(amount * tier_apy(tier) * a == x * a);
        assert(amount * tier_apy(tier) * b == x * b);
        assert(amount * tier_apy(tier) * (now - last_claim) == x * (a + b)) by (nonlinear_arith)
            requires x == amount * tier_apy(tier), a + b == now - last_claim;
    }
}

/// Law (more stake, longer lock, more reward): over the same period, the
/// accrued reward does not decrease with the principal or with the tier.
pub proof fn lemma_reward_grows_with_amount_and_tier(
    amount1: int,
    amount2: int,
    tier1: int,
    tier2: int,
    last_claim: int,
    now: int,
)
    requires
        0 <= amount1 <= amount2,
        0 <= tier1 <= tier2 < NUM_TIERS,
    ensures
        accrued(amount1, tier1, last_claim, now) <= accrued(amount2, tier2, last_claim, now),
{
    if now > last_claim && amount1 != 0 {
        let e = now - last_claim;
        let p1 = tier_apy(tier1);
        let p2 = tier_apy(tier2);
        assert(0 < p1 <= p2);
        assert(amount1 * p1 * e / 10_000 / 31_536_000 <= amount2 * p2 * e / 10_000 / 31_536_000)
            by (nonlinear_arith)
            requires 0 < amount1 <= amount2, 0 < p1 <= p2, e > 0;
    } else if now > last_claim && amount2 != 0 {
        let e = now - last_claim;
        let p2 = tier_apy(tier2);
        assert(amount2 * p2 * e / 10_000 / 31_536_000 >= 0) by (nonlinear_arith)
            requires 0 < amount2, 0 < p2, e > 0;
    }
}

/// Law (stake accounting): staking an amount and later unstaking that stake
/// leaves the total staked where it was.
pub proof fn lemma_stake_unstake_restores_total(
    pre: Stake,
    amount: u64,
    tier: u8,
    now: i64,
    exit: Unstake,
    later: i64,
)
    requires
        stake_result(pre, amount, tier, now) is Ok,
        exit.config == (StakingConfig {
            total_staked: (pre.config.total_staked + amount) as u64,
            ..pre.config
        }),
        exit.stake_account == new_stake(pre, amount, tier, now),
        unstake_result(exit, later) is Ok,
    ensures
        exit.config.total_staked - exit.stake_account.amount == pre.config.total_staked,
{
}

/// Law (one open stake per wallet): once a stake succeeds, staking again
/// on that open stake is refused with `AlreadyStaked`, whatever the amount,
/// tier, time or configuration.
pub proof fn lemma_one_open_stake(
    pre: Stake,
    amount: u64,
    tier: u8,
    now: i64,
    again: Stake,
    amount2: u64,
    tier2: u8,
    now2: i64,
)
    requires
        stake_result(pre, amount, tier, now) is Ok,
        again.stake_account == new_stake(pre, amount, tier, now),
    ensures
        stake_result(again, amount2, tier2, now2) == Err::<(), StakingError>(
            StakingError::AlreadyStaked,
        ),
{
}

/// Law (a stake is unstaked once): after a successful unstake the closed
/// stake can be neither unstaked nor claimed again (`NoStake`), while the
/// wallet may open a new stake.
pub proof fn lemma_unstake_closes_stake(
    exit: Unstake,
    now: i64,
    again: Unstake,
    later: i64,
    claim: Claim,
    claim_at: i64,
    restake: Stake,
    amount: u64,
    tier: u8,
    restake_at: i64,
)
    requires
        unstake_result(exit, now) is Ok,
        again.stake_account == (StakeAccount { is_active: false, ..exit.stake_account }),
        claim.stake_account == (StakeAccount { is_active: false, ..exit.stake_account }),
        restake.stake_account == (StakeAccount { is_active: false, ..exit.stake_account }),
    ensures
        unstake_result(again, later) == Err::<crate::staking::UnstakePayout, StakingError>(
            StakingError::NoStake,
        ),
        claim_result(claim, claim_at) == Err::<u64, StakingError>(StakingError::NoStake),
        stake_result(restake, amount, tier, restake_at) != Err::<(), StakingError>(
            StakingError::AlreadyStaked,
        ),
{
}

/// Law (early exit is penalized): unstaking a locked tier before its lock
/// ends forfeits exactly the tier's penalty share of the principal, rounded
/// down (10% for 6 months, 15% for 12 months), and returns the rest.
pub proof fn lemma_early_unstake_forfeits_tier_penalty(ctx: Unstake, now: i64)
    requires
        unstake_result(ctx, now) is Ok,
        ctx.stake_account.tier < NUM_TIERS,
        TIER_LOCK_SECONDS@[ctx.stake_account.tier as int] > 0,
        now < ctx.stake_account.lock_end,
    ensures
        ({
            let p = unstake_result(ctx, now)->Ok_0;
            let s = ctx.stake_account;
            &&& p.penalty == s.amount * TIER_EARLY_PENALTY_BPS@[s.tier as int] / 10_000
            &&& p.principal == s.amount - p.penalty
            &&& s.tier == 1 ==> p.penalty == s.amount * 1000 / 10_000
            &&& s.tier == 2 ==> p.penalty == s.amount * 1500 / 10_000
        }),
{
    lemma_unstake_conserves_principal(ctx, now);
}

/// Law (no penalty once unlocked): unstaking the Flexible tier, or any tier
/// once its lock has ended, returns the whole principal.
pub proof fn lemma_unlocked_unstake_returns_principal(ctx: Unstake, now: i64)
    requires
        unstake_result(ctx, now) is Ok,
        ctx.stake_account.tier < NUM_TIERS,
        TIER_LOCK_SECONDS@[ctx.stake_account.tier as int] == 0 || now >= ctx.stake_account.lock_end,
    ensures
        unstake_result(ctx, now)->Ok_0.penalty == 0,
        unstake_result(ctx, now)->Ok_0.principal == ctx.stake_account.amount,
{
}

/// Law (a stake locks for its tier): a successful stake at `now` in a locked
/// tier stays locked until `now` plus the tier's lock, 180 days for the
/// 6-month tier and 365 days for the 12-month tier; a Flexible stake has no
/// lock (`lock_end` 0).
pub proof fn lemma_stake_locks_for_tier(pre: Stake, amount: u64, tier: u8, now: i64)
    requires
        stake_result(pre, amount, tier, now) is Ok,
    ensures
        ({
            let s = new_stake(pre, amount, tier, now);
            &&& tier == 0 ==> s.lock_end == 0
            &&& tier == 1 ==> s.lock_end == now + 180 * 86_400
            &&& tier == 2 ==> s.lock_end == now + 365 * 86_400
            &&& tier != 0 ==> s.lock_end == now + TIER_LOCK_SECONDS@[tier as int]
            &&& s.staked_at == now && s.amount == amount && s.tier == tier && s.is_active
        }),
{
}

/// Law (leaving a lock early costs the penalty): a stake in a locked tier
/// that is unstaked before its lock has run from the staking time forfeits the
/// tier's penalty share; for the 12-month tier, any unstake within 365 days of
/// staking forfeits 15%.
pub proof fn lemma_unstake_within_lock_is_penalized(
    pre: Stake,
    amount: u64,
    tier: u8,
    now: i64,
    exit: Unstake,
    later: i64,
)
    requires
        stake_result(pre, amount, tier, now) is Ok,
        tier != 0,
        exit.stake_account == new_stake(pre, amount, tier, now),
        later < now + TIER_LOCK_SECONDS@[tier as int],
        unstake_result(exit, later) is Ok,
    ensures
        unstake_result(exit, later)->Ok_0.penalty == amount * TIER_EARLY_PENALTY_BPS@[tier as int]
            / 10_000,
        tier == 2 ==> unstake_result(exit, later)->Ok_0.penalty == amount * 1500 / 10_000,
{
    lemma_stake_locks_for_tier(pre, amount, tier, now);
    lemma_early_unstake_forfeits_tier_penalty(exit, later);
}

} // verus!
