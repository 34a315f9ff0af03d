use slam::address::Address;
use slam::staking::constants::{SECONDS_PER_YEAR, TIER_LOCK_SECONDS};
use slam::staking::errors::StakingError;
use slam::staking::state::{accrued_reward, StakeAccount, StakingConfig};
use slam::staking::{AdminOnly, Claim, InitRewards, Initialize, Stake, Unstake, UnstakePayout};

fn addr(n: u64) -> Address {
    Address { w0: n, w1: 0, w2: 0, w3: n }
}

const ADMIN: u64 = 1;
const OWNER: u64 = 2;
const THOUSAND_SLAM: u64 = 1_000_000_000;

fn blank_config() -> StakingConfig {
    StakingConfig {
        admin: Address::zero(),
        slam_mint: Address::zero(),
        stake_vault: Address::zero(),
        reward_vault: Address::zero(),
        total_staked: 0,
        is_paused: false,
        bump: 0,
        vault_authority_bump: 0,
    }
}

fn blank_stake() -> StakeAccount {
    StakeAccount {
        is_active: false,
        owner: Address::zero(),
        amount: 0,
        tier: 0,
        staked_at: 0,
        lock_end: 0,
        last_claim: 0,
        reward_claimed: 0,
        bump: 0,
    }
}

fn config() -> StakingConfig {
    let mut ctx = Initialize {
        admin: addr(ADMIN),
        config: blank_config(),
        slam_mint: addr(10),
        stake_vault: addr(11),
        config_bump: 200,
        vault_authority_bump: 201,
    };
    assert_eq!(slam::staking::initialize(&mut ctx), Ok(()));
    ctx.config
}

fn staked(amount: u64, tier: u8, now: i64) -> (StakingConfig, StakeAccount) {
    let mut ctx = Stake { owner: addr(OWNER), config: config(), stake_account: blank_stake(), stake_account_bump: 7 };
    assert_eq!(slam::staking::stake(&mut ctx, amount, tier, now), Ok(()));
    (ctx.config, ctx.stake_account)
}

#[test]
fn initialize_and_init_rewards() {
    let c = config();
    assert_eq!(c.admin, addr(ADMIN));
    assert_eq!(c.stake_vault, addr(11));
    assert_eq!(c.reward_vault, Address::zero());
    assert_eq!(c.bump, 200);
    let mut ctx = InitRewards { admin: addr(ADMIN), config: c, reward_vault: addr(12) };
    assert_eq!(slam::staking::init_rewards(&mut ctx), Ok(()));
    assert_eq!(ctx.config.reward_vault, addr(12));
    assert_eq!(slam::staking::init_rewards(&mut ctx), Err(StakingError::AlreadyStaked));
    let mut outsider = InitRewards { admin: addr(66), config: c, reward_vault: addr(12) };
    assert_eq!(slam::staking::init_rewards(&mut outsider), Err(StakingError::Unauthorized));
}

#[test]
fn stake_records_lock_and_total() {
    let (c, s) = staked(THOUSAND_SLAM, 1, 1_000);
    assert_eq!(c.total_staked, THOUSAND_SLAM);
    assert_eq!(s.owner, addr(OWNER));
    assert_eq!(s.amount, THOUSAND_SLAM);
    assert_eq!(s.tier, 1);
    assert_eq!(s.staked_at, 1_000);
    assert_eq!(s.lock_end, 1_000 + TIER_LOCK_SECONDS[1]);
    assert_eq!(s.last_claim, 1_000);
    assert_eq!(s.bump, 7);
    // Flexible has no lock: `lock_end` is 0.
    let (_, flexible) = staked(THOUSAND_SLAM, 0, 1_000);
    assert_eq!(flexible.lock_end, 0);
    assert_eq!(flexible.staked_at, 1_000);
}

#[test]
fn stake_errors() {
    let mut ctx = Stake { owner: addr(OWNER), config: config(), stake_account: blank_stake(), stake_account_bump: 7 };
    assert_eq!(slam::staking::stake(&mut ctx, THOUSAND_SLAM, 3, 0), Err(StakingError::InvalidTier));
    assert_eq!(slam::staking::stake(&mut ctx, 0, 0, 0), Err(StakingError::ZeroAmount));
    assert_eq!(slam::staking::stake(&mut ctx, 99_999_999, 0, 0), Err(StakingError::BelowMinimum));
    assert_eq!(slam::staking::stake(&mut ctx, THOUSAND_SLAM, 2, i64::MAX - 10), Err(StakingError::MathOverflow));
    ctx.config.total_staked = u64::MAX;
    assert_eq!(slam::staking::stake(&mut ctx, THOUSAND_SLAM, 0, 0), Err(StakingError::MathOverflow));
    ctx.config.is_paused = true;
    assert_eq!(slam::staking::stake(&mut ctx, THOUSAND_SLAM, 0, 0), Err(StakingError::Paused));
    assert_eq!(ctx.stake_account.amount, 0);
}

#[test]
fn rewards_follow_the_tier_apy() {
    assert_eq!(accrued_reward(THOUSAND_SLAM, 0, 0, SECONDS_PER_YEAR as i64), Ok(60_000_000));
    assert_eq!(accrued_reward(THOUSAND_SLAM, 1, 0, SECONDS_PER_YEAR as i64), Ok(90_000_000));
    assert_eq!(accrued_reward(THOUSAND_SLAM, 2, 0, SECONDS_PER_YEAR as i64), Ok(120_000_000));
    assert_eq!(accrued_reward(THOUSAND_SLAM, 2, 0, 86_400), Ok(328_767));
    assert_eq!(accrued_reward(THOUSAND_SLAM, 2, 5, 5), Ok(0));
    assert_eq!(accrued_reward(0, 2, 0, 5), Ok(0));
    assert_eq!(accrued_reward(u64::MAX, 2, i64::MIN + 1, i64::MAX - 1), Err(StakingError::MathOverflow));
}

#[test]
fn claim_pays_and_restarts_accrual() {
    let (c, s) = staked(THOUSAND_SLAM, 2, 0);
    let mut ctx = Claim { owner: addr(OWNER), config: c, stake_account: s, reward_vault_amount: 1_000_000_000 };
    let year = SECONDS_PER_YEAR as i64;
    assert_eq!(slam::staking::claim(&mut ctx, year), Ok(120_000_000));
    assert_eq!(ctx.stake_account.last_claim, year);
    assert_eq!(ctx.stake_account.reward_claimed, 120_000_000);
    assert_eq!(slam::staking::claim(&mut ctx, year), Ok(0));
    ctx.reward_vault_amount = 1;
    assert_eq!(slam::staking::claim(&mut ctx, 2 * year), Err(StakingError::InsufficientRewards));
    ctx.owner = addr(66);
    assert_eq!(slam::staking::claim(&mut ctx, 2 * year), Err(StakingError::Unauthorized));
    let mut empty = Claim { owner: addr(OWNER), config: c, stake_account: StakeAccount { amount: 0, ..s }, reward_vault_amount: 0 };
    assert_eq!(slam::staking::claim(&mut empty, year), Err(StakingError::NoStake));
}

#[test]
fn early_unstake_pays_penalty() {
    let (c, s) = staked(THOUSAND_SLAM, 1, 0);
    let mut ctx = Unstake { owner: addr(OWNER), config: c, stake_account: s, reward_vault_amount: 0 };
    // Unstaking at the staking instant: no reward, 10% penalty.
    assert_eq!(
        slam::staking::unstake(&mut ctx, 0),
        Ok(UnstakePayout { penalty: 100_000_000, principal: 900_000_000, reward: 0 })
    );
    assert_eq!(ctx.config.total_staked, 0);
}

#[test]
fn unstake_after_lock_has_no_penalty() {
    let (c, s) = staked(THOUSAND_SLAM, 2, 0);
    let year = SECONDS_PER_YEAR as i64;
    let mut ctx = Unstake { owner: addr(OWNER), config: c, stake_account: s, reward_vault_amount: 120_000_000 };
    assert_eq!(
        slam::staking::unstake(&mut ctx, year),
        Ok(UnstakePayout { penalty: 0, principal: THOUSAND_SLAM, reward: 120_000_000 })
    );
    let (c0, s0) = staked(THOUSAND_SLAM, 0, 0);
    let mut flexible = Unstake { owner: addr(OWNER), config: c0, stake_account: s0, reward_vault_amount: 0 };
    assert_eq!(
        slam::staking::unstake(&mut flexible, 0),
        Ok(UnstakePayout { penalty: 0, principal: THOUSAND_SLAM, reward: 0 })
    );
}

#[test]
fn unstake_errors() {
    let (c, s) = staked(THOUSAND_SLAM, 2, 0);
    let year = SECONDS_PER_YEAR as i64;
    let mut ctx = Unstake { owner: addr(OWNER), config: c, stake_account: s, reward_vault_amount: 119_999_999 };
    assert_eq!(slam::staking::unstake(&mut ctx, year), Err(StakingError::InsufficientRewards));
    ctx.reward_vault_amount = 120_000_000;
    ctx.config.total_staked = 5;
    assert_eq!(slam::staking::unstake(&mut ctx, year), Err(StakingError::MathUnderflow));
    ctx.owner = addr(66);
    assert_eq!(slam::staking::unstake(&mut ctx, year), Err(StakingError::Unauthorized));
    let mut empty = Unstake { owner: addr(OWNER), config: c, stake_account: StakeAccount { amount: 0, ..s }, reward_vault_amount: 0 };
    assert_eq!(slam::staking::unstake(&mut empty, year), Err(StakingError::NoStake));
}

#[test]
fn pause_is_admin_only() {
    let mut ctx = AdminOnly { admin: addr(ADMIN), config: config() };
    assert_eq!(slam::staking::set_paused(&mut ctx, true), Ok(()));
    assert!(ctx.config.is_paused);
    ctx.admin = addr(66);
    assert_eq!(slam::staking::set_paused(&mut ctx, false), Err(StakingError::Unauthorized));
    assert!(ctx.config.is_paused);
}

#[test]
fn every_claim_restarts_the_clock() {
    // 100 SLAM claimed one second after staking: nothing accrued, but the
    // accrual clock still restarts.
    let (c, s) = staked(100_000_000, 0, 1_000);
    let mut ctx = Claim { owner: addr(OWNER), config: c, stake_account: s, reward_vault_amount: 0 };
    assert_eq!(slam::staking::claim(&mut ctx, 1_001), Ok(0));
    assert_eq!(ctx.stake_account.last_claim, 1_001);
    assert_eq!(ctx.stake_account.reward_claimed, 0);
}

#[test]
fn split_claims_never_pay_more() {
    let year = SECONDS_PER_YEAR as i64;
    let whole = accrued_reward(THOUSAND_SLAM, 1, 0, year).unwrap();
    let first = accrued_reward(THOUSAND_SLAM, 1, 0, 12_345).unwrap();
    let second = accrued_reward(THOUSAND_SLAM, 1, 12_345, year).unwrap();
    assert!(first + second <= whole);
    assert_eq!(whole, 90_000_000);
    assert_eq!(first + second, 89_999_999);
    // More principal or a longer lock never accrues less.
    assert!(accrued_reward(THOUSAND_SLAM, 0, 0, 86_400).unwrap() <= accrued_reward(THOUSAND_SLAM, 1, 0, 86_400).unwrap());
    assert!(accrued_reward(THOUSAND_SLAM, 1, 0, 86_400).unwrap() <= accrued_reward(2 * THOUSAND_SLAM, 1, 0, 86_400).unwrap());
}

#[test]
fn one_open_stake_per_wallet() {
    let mut ctx = Stake { owner: addr(OWNER), config: config(), stake_account: blank_stake(), stake_account_bump: 7 };
    assert_eq!(slam::staking::stake(&mut ctx, THOUSAND_SLAM, 0, 0), Ok(()));
    assert!(ctx.stake_account.is_active);
    // A second stake while the first is open is refused and changes nothing.
    assert_eq!(slam::staking::stake(&mut ctx, 2 * THOUSAND_SLAM, 2, 10), Err(StakingError::AlreadyStaked));
    assert_eq!(ctx.stake_account.amount, THOUSAND_SLAM);
    assert_eq!(ctx.config.total_staked, THOUSAND_SLAM);
}

#[test]
fn unstake_closes_the_stake() {
    let (c, s) = staked(THOUSAND_SLAM, 0, 0);
    let mut ctx = Unstake { owner: addr(OWNER), config: c, stake_account: s, reward_vault_amount: 0 };
    assert_eq!(
        slam::staking::unstake(&mut ctx, 0),
        Ok(UnstakePayout { penalty: 0, principal: THOUSAND_SLAM, reward: 0 })
    );
    assert!(!ctx.stake_account.is_active);
    assert_eq!(ctx.config.total_staked, 0);
    // The same stake cannot be unstaked or claimed again.
    assert_eq!(slam::staking::unstake(&mut ctx, 10), Err(StakingError::NoStake));
    let mut claim = Claim { owner: addr(OWNER), config: ctx.config, stake_account: ctx.stake_account, reward_vault_amount: 1_000 };
    assert_eq!(slam::staking::claim(&mut claim, SECONDS_PER_YEAR as i64), Err(StakingError::NoStake));
    // The wallet may open a new stake.
    let mut again = Stake { owner: addr(OWNER), config: ctx.config, stake_account: ctx.stake_account, stake_account_bump: 7 };
    assert_eq!(slam::staking::stake(&mut again, THOUSAND_SLAM, 1, 20), Ok(()));
    assert!(again.stake_account.is_active);
    assert_eq!(again.stake_account.staked_at, 20);
    assert_eq!(again.config.total_staked, THOUSAND_SLAM);
}
