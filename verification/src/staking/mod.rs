//! SLAM staking: one stake per wallet in one of three fixed-APY lock tiers,
//! with an early-unstake penalty recycled into the reward vault.
pub mod constants;
pub mod errors;
pub mod state;
pub mod laws;

use vstd::prelude::*;

use crate::address::Address;
use crate::staking::constants::{
    BPS_DENOMINATOR, MIN_STAKE_TOKENS, NUM_TIERS, TIER_EARLY_PENALTY_BPS, TIER_LOCK_SECONDS,
};
use crate::staking::errors::StakingError;
use crate::staking::state::{
    accrual_defined, accrual_fits, accrued, accrued_reward, StakeAccount, StakingConfig,
};

verus! {

/// Accounts of `initialize`: the admin, the new configuration, the SLAM mint,
/// the new stake vault, and the bumps of the configuration and of the vault
/// authority.
#[derive(Clone, Copy, Debug)]
pub struct Initialize {
    pub admin: Address,
    pub config: StakingConfig,
    pub slam_mint: Address,
    pub stake_vault: Address,
    pub config_bump: u8,
    pub vault_authority_bump: u8,
}

/// Accounts of `init_rewards`: the signer, the configuration and the new
/// reward vault.
#[derive(Clone, Copy, Debug)]
pub struct InitRewards {
    pub admin: Address,
    pub config: StakingConfig,
    pub reward_vault: Address,
}

/// Accounts of `stake`: the owner, the configuration, the owner's stake
/// account (open or not) and its bump.
#[derive(Clone, Copy, Debug)]
pub struct Stake {
    pub owner: Address,
    pub config: StakingConfig,
    pub stake_account: StakeAccount,
    pub stake_account_bump: u8,
}

/// Accounts of `claim`: the owner, the configuration, the stake, and the
/// reward vault's balance.
#[derive(Clone, Copy, Debug)]
pub struct Claim {
    pub owner: Address,
    pub config: StakingConfig,
    pub stake_account: StakeAccount,
    pub reward_vault_amount: u64,
}

/// Accounts of `unstake`: the owner, the configuration, the stake (closed by
/// the instruction: no longer active), and the reward vault's balance before
/// the instruction.
#[derive(Clone, Copy, Debug)]
pub struct Unstake {
    pub owner: Address,
    pub config: StakingConfig,
    pub stake_account: StakeAccount,
    pub reward_vault_amount: u64,
}

/// Accounts of `set_paused`.
#[derive(Clone, Copy, Debug)]
pub struct AdminOnly {
    pub admin: Address,
    pub config: StakingConfig,
}

/// The three transfers of an unstake: `penalty` from the stake vault to the
/// reward vault (when non-zero), `principal` from the stake vault to the
/// owner, `reward` from the reward vault to the owner (when non-zero).
#[derive(Clone, Copy, Debug, PartialEq, Eq, Structural)]
pub struct UnstakePayout {
    pub penalty: u64,
    pub principal: u64,
    pub reward: u64,
}

/// Step 1 of setup: records the admin, mint and stake vault; the reward vault
/// stays unset until `init_rewards`; nothing staked; not paused.
pub fn initialize(ctx: &mut Initialize) -> (r: Result<(), StakingError>)
    ensures
        r is Ok,
        *final(ctx) == (Initialize {
            config: StakingConfig {
                admin: old(ctx).admin,
                slam_mint: old(ctx).slam_mint,
                stake_vault: old(ctx).stake_vault,
                reward_vault: Address::spec_zero(),
                total_staked: 0,
                is_paused: false,
                bump: old(ctx).config_bump,
                vault_authority_bump: old(ctx).vault_authority_bump,
            },
            ..*old(ctx)
        }),
{
    ctx.config = StakingConfig {
        admin: ctx.admin,
        slam_mint: ctx.slam_mint,
        stake_vault: ctx.stake_vault,
        reward_vault: Address::zero(),
        total_staked: 0,
        is_paused: false,
        bump: ctx.config_bump,
        vault_authority_bump: ctx.vault_authority_bump,
    };
    Ok(())
}

/// The outcome of `init_rewards`.
pub open spec fn init_rewards_result(ctx: InitRewards) -> Result<(), StakingError> {
    if ctx.admin != ctx.config.admin {
        Err(StakingError::Unauthorized)
    } else if ctx.config.reward_vault != Address::spec_zero() {
        Err(StakingError::AlreadyStaked)
    } else {
        Ok(())
    }
}

/// Step 2 of setup, admin-only and once: records the reward vault.
pub fn init_rewards(ctx: &mut InitRewards) -> (r: Result<(), StakingError>)
    ensures
        r == init_rewards_result(*old(ctx)),
        r is Ok ==> *final(ctx) == (InitRewards {
            config: StakingConfig { reward_vault: old(ctx).reward_vault, ..old(ctx).config },
            ..*old(ctx)
        }),
        r is Err ==> *final(ctx) == *old(ctx),
{
    if ctx.admin != ctx.config.admin {
        return Err(StakingError::Unauthorized);
    }
    if !ctx.config.reward_vault.is_zero() {
        return Err(StakingError::AlreadyStaked);
    }
    ctx.config.reward_vault = ctx.reward_vault;
    Ok(())
}

/// The lock of `tier`, in seconds.
pub open spec fn tier_lock(tier: int) -> int {
    TIER_LOCK_SECONDS@[tier] as int
}

/// The early-unstake penalty of `tier`, in basis points.
pub open spec fn tier_penalty_bps(tier: int) -> int {
    TIER_EARLY_PENALTY_BPS@[tier] as int
}

/// The outcome of `stake`.
pub open spec fn stake_result(ctx: Stake, amount: u64, tier: u8, now: i64) -> Result<(), StakingError> {
    if ctx.stake_account.is_active {
        Err(StakingError::AlreadyStaked)
    } else if ctx.config.is_paused {
        Err(StakingError::Paused)
    } else if tier >= NUM_TIERS {
        Err(StakingError::InvalidTier)
    } else if amount == 0 {
        Err(StakingError::ZeroAmount)
    } else if amount < MIN_STAKE_TOKENS {
        Err(StakingError::BelowMinimum)
    } else if now + tier_lock(tier as int) > i64::MAX {
        Err(StakingError::MathOverflow)
    } else if ctx.config.total_staked + amount > u64::MAX {
        Err(StakingError::MathOverflow)
    } else {
        Ok(())
    }
}

/// The stake account that `stake` writes: it locks until `now` plus the
/// tier's lock (`lock_end` is 0 for the Flexible tier, which has no lock).
pub open spec fn new_stake(ctx: Stake, amount: u64, tier: u8, now: i64) -> StakeAccount {
    StakeAccount {
        is_active: true,
        owner: ctx.owner,
        amount,
        tier,
        staked_at: now,
        lock_end: if tier_lock(tier as int) == 0 {
            0
        } else {
            (now + tier_lock(tier as int)) as i64
        },
        last_claim: now,
        reward_claimed: 0,
        bump: ctx.stake_account_bump,
    }
}

/// Stakes `amount` SLAM into `tier` at time `now`, refused while the wallet's
/// stake is still open: the new stake locks until
/// `now` plus the tier's lock (no lock, `lock_end` 0, for Flexible) and
/// accrues from `now`; `amount` moves from the
/// owner to the stake vault and is added to the total staked.
pub fn stake(ctx: &mut Stake, amount: u64, tier: u8, now: i64) -> (r: Result<(), StakingError>)
    ensures
        r == stake_result(*old(ctx), amount, tier, now),
        r is Ok ==> *final(ctx) == (Stake {
            config: StakingConfig {
                total_staked: (old(ctx).config.total_staked + amount) as u64,
                ..old(ctx).config
            },
            stake_account: new_stake(*old(ctx), amount, tier, now),
            ..*old(ctx)
        }),
        r is Ok ==> final(ctx).stake_account.lock_end == if TIER_LOCK_SECONDS@[tier as int] == 0 {
            0
        } else {
            now + TIER_LOCK_SECONDS@[tier as int]
        },
        r is Ok ==> final(ctx).stake_account.staked_at == now && final(ctx).stake_account.tier
            == tier && final(ctx).stake_account.amount == amount,
        r is Err ==> *final(ctx) == *old(ctx),
{
    if ctx.stake_account.is_active {
        return Err(StakingError::AlreadyStaked);
    }
    if ctx.config.is_paused {
        return Err(StakingError::Paused);
    }
    if tier as usize >= NUM_TIERS {
        return Err(StakingError::InvalidTier);
    }
    if amount == 0 {
        return Err(StakingError::ZeroAmount);
    }
    if amount < MIN_STAKE_TOKENS {
        return Err(StakingError::BelowMinimum);
    }
    let lock = TIER_LOCK_SECONDS[tier as usize];
    let lock_end = if lock == 0 {
        0
    } else {
        match now.checked_add(lock) {
            Some(v) => v,
            None => return Err(StakingError::MathOverflow),
        }
    };
    let total = match ctx.config.total_staked.checked_add(amount) {
        Some(v) => v,
        None => return Err(StakingError::MathOverflow),
    };
    ctx.stake_account = StakeAccount {
        is_active: true,
        owner: ctx.owner,
        amount,
        tier,
        staked_at: now,
        lock_end,
        last_claim: now,
        reward_claimed: 0,
        bump: ctx.stake_account_bump,
    };
    ctx.config.total_staked = total;
    Ok(())
}

/// What `claim` needs: the reward computation is defined for the stake.
pub open spec fn claim_defined(ctx: Claim, now: i64) -> bool {
    let s = ctx.stake_account;
    (s.is_active && s.owner == ctx.owner && s.amount > 0) ==> accrual_defined(
        s.amount as int,
        s.tier as int,
        s.last_claim as int,
        now as int,
    )
}

/// The outcome of `claim`: the reward paid (zero: no transfer), or the error.
pub open spec fn claim_result(ctx: Claim, now: i64) -> Result<u64, StakingError> {
    let s = ctx.stake_account;
    let reward = accrued(s.amount as int, s.tier as int, s.last_claim as int, now as int);
    if !s.is_active {
        Err(StakingError::NoStake)
    } else if s.owner != ctx.owner {
        Err(StakingError::Unauthorized)
    } else if s.amount == 0 {
        Err(StakingError::NoStake)
    } else if !accrual_fits(s.amount as int, s.tier as int, s.last_claim as int, now as int) {
        Err(StakingError::MathOverflow)
    } else if reward > 0 && ctx.reward_vault_amount < reward {
        Err(StakingError::InsufficientRewards)
    } else if reward > 0 && s.reward_claimed + reward > u64::MAX {
        Err(StakingError::MathOverflow)
    } else {
        Ok(reward as u64)
    }
}

/// Pays the rewards accrued since the last claim without unstaking (a zero
/// reward moves no tokens) and restarts the accrual clock at `now`; a stake
/// that is not open has nothing to claim.
pub fn claim(ctx: &mut Claim, now: i64) -> (r: Result<u64, StakingError>)
    requires
        claim_defined(*old(ctx), now),
    ensures
        r == claim_result(*old(ctx), now),
        r matches Ok(reward) ==> *final(ctx) == (Claim {
            stake_account: StakeAccount {
                last_claim: now,
                reward_claimed: (old(ctx).stake_account.reward_claimed + reward) as u64,
                ..old(ctx).stake_account
            },
            ..*old(ctx)
        }),
        r is Err ==> *final(ctx) == *old(ctx),
{
    if !ctx.stake_account.is_active {
        return Err(StakingError::NoStake);
    }
    if ctx.stake_account.owner != ctx.owner {
        return Err(StakingError::Unauthorized);
    }
    let s = ctx.stake_account;
    if s.amount == 0 {
        return Err(StakingError::NoStake);
    }
    let reward = accrued_reward(s.amount, s.tier, s.last_claim, now)?;
    if reward > 0 && ctx.reward_vault_amount < reward {
        return Err(StakingError::InsufficientRewards);
    }
    let claimed = match s.reward_claimed.checked_add(reward) {
        Some(v) => v,
        None => return Err(StakingError::MathOverflow),
    };
    ctx.stake_account.last_claim = now;
    ctx.stake_account.reward_claimed = claimed;
    Ok(reward)
}

/// Whether unstaking at `now` is early: the tier locks and its lock has not
/// ended.
pub open spec fn is_early(s: StakeAccount, now: i64) -> bool {
    s.lock_end > now && tier_lock(s.tier as int) > 0
}

/// The early-unstake penalty on the principal: the tier's share, rounded
/// down, when unstaking early; zero otherwise.
pub open spec fn early_penalty(s: StakeAccount, now: i64) -> int {
    if is_early(s, now) {
        s.amount * tier_penalty_bps(s.tier as int) / (BPS_DENOMINATOR as int)
    } else {
        0
    }
}

/// What `unstake` needs: the reward computation is defined, and the tier is
/// valid where its lock is looked up.
pub open spec fn unstake_defined(ctx: Unstake, now: i64) -> bool {
    let s = ctx.stake_account;
    (s.is_active && s.owner == ctx.owner && s.amount > 0) ==> {
        &&& accrual_defined(s.amount as int, s.tier as int, s.last_claim as int, now as int)
        &&& (accrual_fits(s.amount as int, s.tier as int, s.last_claim as int, now as int)
            && s.lock_end > now) ==> s.tier < NUM_TIERS
    }
}

/// The outcome of `unstake`: the three transfers, or the error.
pub open spec fn unstake_result(ctx: Unstake, now: i64) -> Result<UnstakePayout, StakingError> {
    let s = ctx.stake_account;
    let reward = accrued(s.amount as int, s.tier as int, s.last_claim as int, now as int);
    let penalty = early_penalty(s, now);
    if !s.is_active {
        Err(StakingError::NoStake)
    } else if s.owner != ctx.owner {
        Err(StakingError::Unauthorized)
    } else if s.amount == 0 {
        Err(StakingError::NoStake)
    } else if !accrual_fits(s.amount as int, s.tier as int, s.last_claim as int, now as int) {
        Err(StakingError::MathOverflow)
    } else if reward > 0 && ctx.reward_vault_amount < reward {
        Err(StakingError::InsufficientRewards)
    } else if ctx.config.total_staked < s.amount {
        Err(StakingError::MathUnderflow)
    } else {
        Ok(
            UnstakePayout {
                penalty: penalty as u64,
                principal: (s.amount - penalty) as u64,
                reward: reward as u64,
            },
        )
    }
}

/// Unstakes the whole principal and pays the accrued rewards; the stake
/// is then closed (no longer active), so it can be neither unstaked nor
/// claimed again. Unstaking a locked tier before its lock ends
/// forfeits the tier's penalty share of the principal to the reward vault.
/// The reward check uses the reward vault's balance from before the
/// instruction.
pub fn unstake(ctx: &mut Unstake, now: i64) -> (r: Result<UnstakePayout, StakingError>)
    requires
        unstake_defined(*old(ctx), now),
    ensures
        r == unstake_result(*old(ctx), now),
        r is Ok ==> *final(ctx) == (Unstake {
            config: StakingConfig {
                total_staked: (old(ctx).config.total_staked - old(ctx).stake_account.amount) as u64,
                ..old(ctx).config
            },
            stake_account: StakeAccount { is_active: false, ..old(ctx).stake_account },
            ..*old(ctx)
        }),
        r matches Ok(p) ==> {
            let s = old(ctx).stake_account;
            p.penalty == if s.lock_end > now && TIER_LOCK_SECONDS@[s.tier as int] > 0 {
                s.amount * TIER_EARLY_PENALTY_BPS@[s.tier as int] / 10_000
            } else {
                0
            }
        },
        r matches Ok(p) ==> p.penalty + p.principal == old(ctx).stake_account.amount,
        r is Err ==> *final(ctx) == *old(ctx),
{
    if !ctx.stake_account.is_active {
        return Err(StakingError::NoStake);
    }
    if ctx.stake_account.owner != ctx.owner {
        return Err(StakingError::Unauthorized);
    }
    let s = ctx.stake_account;
    if s.amount == 0 {
        return Err(StakingError::NoStake);
    }
    let amount = s.amount;
    let tier = s.tier;
    let reward = accrued_reward(amount, tier, s.last_claim, now)?;
    let early = s.lock_end > now && TIER_LOCK_SECONDS[tier as usize] > 0;
    let penalty: u64 = if early {
        let bps = TIER_EARLY_PENALTY_BPS[tier as usize];
        proof {
            assert((amount as int) * (bps as int) / 10_000 <= amount) by (nonlinear_arith)
                requires bps <= 1500;
        }
        ((amount as u128) * (bps as u128) / (BPS_DENOMINATOR as u128)) as u64
    } else {
        0
    };
    let principal_out = amount - penalty;
    if reward > 0 && ctx.reward_vault_amount < reward {
        return Err(StakingError::InsufficientRewards);
    }
    if ctx.config.total_staked < amount {
        return Err(StakingError::MathUnderflow);
    }
    ctx.config.total_staked = ctx.config.total_staked - amount;
    ctx.stake_account.is_active = false;
    Ok(UnstakePayout { penalty, principal: principal_out, reward })
}

/// Admin-only. Pauses or resumes staking.
pub fn set_paused(ctx: &mut AdminOnly, paused: bool) -> (r: Result<(), StakingError>)
    ensures
        r is Ok <==> old(ctx).admin == old(ctx).config.admin,
        r matches Err(e) ==> e == StakingError::Unauthorized && *final(ctx) == *old(ctx),
        r is Ok ==> *final(ctx) == (AdminOnly {
            config: StakingConfig { is_paused: paused, ..old(ctx).config },
            ..*old(ctx)
        }),
{
    if ctx.admin != ctx.config.admin {
        return Err(StakingError::Unauthorized);
    }
    ctx.config.is_paused = paused;
    Ok(())
}

} // verus!
