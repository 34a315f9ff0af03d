//! The presale's global state, a buyer's allocation, the purchase rule and
//! the vesting schedule.
use vstd::prelude::*;

use crate::address::Address;
use crate::presale::constants::{
    BPS_DENOMINATOR, HARD_CAP_MICRO_USD, MAX_ACCEPTED_STABLES, MIN_PURCHASE_MICRO_USD, NUM_ROUNDS,
    ROUND_ALLOCATION_TOKENS, ROUND_PRICE_MICRO_USD, SLAM_DECIMALS_MULTIPLIER, TGE_UNLOCK_BPS,
    VESTING_DURATION_SECONDS,
};
use crate::presale::errors::PresaleError;
use crate::presale::math::{mul_div, mul_div_u64};

verus! {

/// The presale's single global account.
#[derive(Clone, Copy, Debug)]
pub struct PresaleState {
    /// Can pause, update the vault/price feed/stable list, enable claiming and
    /// transfer admin rights; cannot alter prices, allocations or purchases.
    pub admin: Address,
    /// Destination of SOL proceeds and of the stable-coin sweep.
    pub vault: Address,
    pub slam_mint: Address,
    /// The program's SLAM token account that claims are paid out of.
    pub token_vault: Address,
    /// The Pyth SOL/USD price account.
    pub sol_usd_price_feed: Address,
    pub accepted_stables: [Address; MAX_ACCEPTED_STABLES],
    pub accepted_stables_len: u8,
    pub sale_start_ts: i64,
    pub sale_end_ts: i64,
    /// 0-indexed current round; `NUM_ROUNDS` once every round is exhausted.
    pub current_round: u8,
    pub round_tokens_sold: [u64; 1],
    pub total_tokens_sold: u64,
    /// Cumulative USD raised across all payment methods, in micro-USD.
    pub total_usd_raised_micro: u64,
    pub is_paused: bool,
    /// Set by `finalize` once the soft cap is confirmed met.
    pub is_finalized: bool,
    pub is_claim_active: bool,
    /// Vesting is measured from this timestamp, fixed by `enable_claim`.
    pub tge_timestamp: i64,
    pub bump: u8,
    pub vault_authority_bump: u8,
}

/// One buyer's purchases and claims.
#[derive(Clone, Copy, Debug)]
pub struct UserAllocation {
    pub buyer: Address,
    /// Total SLAM purchased, in base units (6 decimals).
    pub total_purchased: u64,
    /// How much of `total_purchased` has already been paid out.
    pub total_claimed: u64,
    pub paid_sol_lamports: u64,
    pub paid_stable_micro: u64,
    /// The micro-USD value charged for this wallet's SOL purchases.
    pub paid_sol_usd_micro: u64,
    pub bump: u8,
}

impl UserAllocation {
    /// The wallet's contribution so far in micro-USD, over both payment
    /// methods; `MAX_PER_WALLET_MICRO_USD` bounds it.
    pub open spec fn contribution(self) -> int {
        self.paid_stable_micro + self.paid_sol_usd_micro
    }
}

/// The price of a round, in micro-USD per whole token.
pub open spec fn spec_round_price(round: int) -> int {
    ROUND_PRICE_MICRO_USD@[round] as int
}

/// The tokens (base units) that `usd` micro-USD buys at `price`, rounded down.
pub open spec fn tokens_for_usd(usd: int, price: int) -> int {
    mul_div(usd, SLAM_DECIMALS_MULTIPLIER as int, price)
}

/// The micro-USD that `tokens` base units cost at `price`, rounded down.
pub open spec fn usd_for_tokens(tokens: int, price: int) -> int {
    mul_div(tokens, price, SLAM_DECIMALS_MULTIPLIER as int)
}

impl PresaleState {
    /// What holds of every presale state that `initialize` and the
    /// instructions produce: sales never exceed the round's allocation, the
    /// USD raised never exceeds the hard cap, the round is exhausted exactly
    /// when it is sold out, the totals agree with the round, and at most
    /// `MAX_ACCEPTED_STABLES` mints are accepted.
    pub open spec fn wf(self) -> bool {
        &&& self.total_usd_raised_micro <= HARD_CAP_MICRO_USD
        &&& self.round_tokens_sold@[0] <= ROUND_ALLOCATION_TOKENS
        &&& self.total_tokens_sold == self.round_tokens_sold@[0]
        &&& self.current_round <= NUM_ROUNDS
        &&& (self.current_round == NUM_ROUNDS <==> self.round_tokens_sold@[0]
            == ROUND_ALLOCATION_TOKENS)
        &&& self.accepted_stables_len as int <= MAX_ACCEPTED_STABLES
    }

    /// The outcome of the purchasability check at time `now`.
    pub open spec fn purchasable_at(self, now: i64) -> Result<(), PresaleError> {
        if self.is_paused {
            Err(PresaleError::Paused)
        } else if now < self.sale_start_ts {
            Err(PresaleError::NotStarted)
        } else if now > self.sale_end_ts {
            Err(PresaleError::Ended)
        } else if self.current_round >= NUM_ROUNDS {
            Err(PresaleError::SoldOut)
        } else {
            Ok(())
        }
    }

    /// Tokens still for sale in the current round (negative when the state
    /// records more sold than allocated).
    pub open spec fn round_remaining(self) -> int {
        ROUND_ALLOCATION_TOKENS - self.round_tokens_sold@[self.current_round as int]
    }

    /// The outcome of buying for `usd` micro-USD at time `now`: the tokens
    /// granted and the micro-USD actually charged, or the error. An order
    /// larger than the round's remainder is clamped to the remainder, charged
    /// at the round price; it never spills over into the next round. No
    /// purchase takes the USD raised above the hard cap.
    pub open spec fn purchase_outcome(self, usd: u64, now: i64) -> Result<(u64, u64), PresaleError> {
        let price = spec_round_price(self.current_round as int);
        let desired = tokens_for_usd(usd as int, price);
        let remaining = self.round_remaining();
        let tokens = if desired >= remaining { remaining } else { desired };
        let charged = if desired >= remaining { usd_for_tokens(remaining, price) } else { usd as int };
        if self.purchasable_at(now) is Err {
            Err(self.purchasable_at(now)->Err_0)
        } else if usd == 0 {
            Err(PresaleError::ZeroAmount)
        } else if usd < MIN_PURCHASE_MICRO_USD {
            Err(PresaleError::BelowMinimum)
        } else if desired > u64::MAX {
            Err(PresaleError::MathOverflow)
        } else if remaining < 0 {
            Err(PresaleError::MathUnderflow)
        } else if self.total_tokens_sold + tokens > u64::MAX {
            Err(PresaleError::MathOverflow)
        } else if self.total_usd_raised_micro + charged > HARD_CAP_MICRO_USD {
            Err(PresaleError::HardCapReached)
        } else {
            Ok((tokens as u64, charged as u64))
        }
    }

    /// Every field but the sales counters is the same in `self` and `other`.
    pub open spec fn same_settings(self, other: PresaleState) -> bool {
        &&& self.admin == other.admin
        &&& self.vault == other.vault
        &&& self.slam_mint == other.slam_mint
        &&& self.token_vault == other.token_vault
        &&& self.sol_usd_price_feed == other.sol_usd_price_feed
        &&& self.accepted_stables == other.accepted_stables
        &&& self.accepted_stables_len == other.accepted_stables_len
        &&& self.sale_start_ts == other.sale_start_ts
        &&& self.sale_end_ts == other.sale_end_ts
        &&& self.is_paused == other.is_paused
        &&& self.is_finalized == other.is_finalized
        &&& self.is_claim_active == other.is_claim_active
        &&& self.tge_timestamp == other.tge_timestamp
        &&& self.bump == other.bump
        &&& self.vault_authority_bump == other.vault_authority_bump
    }

    /// `post` is `pre` after recording a purchase of `tokens` for `charged`:
    /// the round and the totals grow by exactly those amounts, and the round
    /// advances exactly when the purchase took its whole remainder.
    pub open spec fn purchase_recorded(pre: PresaleState, post: PresaleState, tokens: u64, charged: u64) -> bool {
        let round = pre.current_round as int;
        &&& post.same_settings(pre)
        &&& post.round_tokens_sold@ == pre.round_tokens_sold@.update(
            round,
            (pre.round_tokens_sold@[round] + tokens) as u64,
        )
        &&& post.total_tokens_sold == pre.total_tokens_sold + tokens
        &&& post.total_usd_raised_micro == pre.total_usd_raised_micro + charged
        &&& post.current_round == if tokens == pre.round_remaining() {
            pre.current_round + 1
        } else {
            pre.current_round as int
        }
    }

    /// The price of `round`, in micro-USD per whole token.
    pub fn round_price(&self, round: u8) -> (p: u64)
        requires
            round < NUM_ROUNDS,
        ensures
            p == spec_round_price(round as int),
    {
        ROUND_PRICE_MICRO_USD[round as usize]
    }

    /// Refuses a purchase while paused, outside the sale window, or once
    /// every round is sold out (checked in that order).
    pub fn assert_purchasable(&self, now: i64) -> (r: Result<(), PresaleError>)
        ensures
            r == self.purchasable_at(now),
    {
        if self.is_paused {
            return Err(PresaleError::Paused);
        }
        if now < self.sale_start_ts {
            return Err(PresaleError::NotStarted);
        }
        if now > self.sale_end_ts {
            return Err(PresaleError::Ended);
        }
        if self.current_round >= NUM_ROUNDS {
            return Err(PresaleError::SoldOut);
        }
        Ok(())
    }

    /// Consumes a purchase worth `usd_value_micro` against the current round,
    /// clamping to the round's remaining capacity and advancing the round on
    /// an exact fill. A purchase that would take the USD raised above
    /// `HARD_CAP_MICRO_USD` is refused. Returns `(tokens_granted, usd_actually_charged)`; the
    /// caller charges only the returned amount. On an error nothing changes.
    pub fn consume_purchase(&mut self, usd_value_micro: u64, now: i64) -> (r: Result<(u64, u64), PresaleError>)
        ensures
            r == old(self).purchase_outcome(usd_value_micro, now),
            r matches Ok((tokens, charged)) ==> PresaleState::purchase_recorded(
                *old(self),
                *final(self),
                tokens,
                charged,
            ),
            r is Err ==> *final(self) == *old(self),
    {
        self.assert_purchasable(now)?;
        if usd_value_micro == 0 {
            return Err(PresaleError::ZeroAmount);
        }
        if usd_value_micro < MIN_PURCHASE_MICRO_USD {
            return Err(PresaleError::BelowMinimum);
        }
        let round = self.current_round;
        let price = self.round_price(round);
        let desired_tokens = mul_div_u64(usd_value_micro, SLAM_DECIMALS_MULTIPLIER, price)?;
        let sold = self.round_tokens_sold[round as usize];
        if sold > ROUND_ALLOCATION_TOKENS {
            return Err(PresaleError::MathUnderflow);
        }
        let remaining = ROUND_ALLOCATION_TOKENS - sold;
        let (tokens, actual_usd_micro) = if desired_tokens >= remaining {
            let actual = mul_div_u64(remaining, price, SLAM_DECIMALS_MULTIPLIER)?;
            (remaining, actual)
        } else {
            (desired_tokens, usd_value_micro)
        };
        let new_total_tokens = match self.total_tokens_sold.checked_add(tokens) {
            Some(v) => v,
            None => return Err(PresaleError::MathOverflow),
        };
        if self.total_usd_raised_micro > HARD_CAP_MICRO_USD || actual_usd_micro > HARD_CAP_MICRO_USD
            - self.total_usd_raised_micro {
            return Err(PresaleError::HardCapReached);
        }
        let new_total_usd = self.total_usd_raised_micro + actual_usd_micro;
        self.round_tokens_sold[round as usize] = sold + tokens;
        self.total_tokens_sold = new_total_tokens;
        self.total_usd_raised_micro = new_total_usd;
        if tokens == remaining {
            self.current_round = round + 1;
        }
        Ok((tokens, actual_usd_micro))
    }
}

/// The tokens unlocked at TGE: `TGE_UNLOCK_BPS` of the purchase, rounded down.
pub open spec fn tge_unlocked(total_purchased: int) -> int {
    mul_div(total_purchased, TGE_UNLOCK_BPS as int, BPS_DENOMINATOR as int)
}

/// How much of `total_purchased` has vested at `now`: nothing up to the TGE
/// timestamp, then the TGE share plus a linear share of the rest over
/// `VESTING_DURATION_SECONDS`, and everything from then on.
pub open spec fn vested_amount(total_purchased: int, tge_timestamp: int, now: int) -> int {
    if now <= tge_timestamp {
        0
    } else if now - tge_timestamp >= VESTING_DURATION_SECONDS {
        total_purchased
    } else {
        let tge = tge_unlocked(total_purchased);
        tge + mul_div(
            total_purchased - tge,
            now - tge_timestamp,
            VESTING_DURATION_SECONDS as int,
        )
    }
}

/// The part of `total_purchased` that has vested at `now` (always `Ok`).
pub fn total_vested_amount(total_purchased: u64, tge_timestamp: i64, now: i64) -> (r: Result<u64, PresaleError>)
    ensures
        r == Ok::<u64, PresaleError>(
            vested_amount(total_purchased as int, tge_timestamp as int, now as int) as u64,
        ),
        vested_amount(total_purchased as int, tge_timestamp as int, now as int) <= total_purchased,
{
    proof {
        lemma_vested_bounded(total_purchased as int, tge_timestamp as int, now as int);
    }
    if now <= tge_timestamp {
        return Ok(0);
    }
    // The difference is taken in 128 bits: where it would leave the `i64`
    // range it is far beyond the vesting duration anyway.
    let elapsed_wide: i128 = now as i128 - tge_timestamp as i128;
    if elapsed_wide >= VESTING_DURATION_SECONDS as i128 {
        return Ok(total_purchased);
    }
    let elapsed: i64 = elapsed_wide as i64;
    let tge_amount = mul_div_u64(total_purchased, TGE_UNLOCK_BPS, BPS_DENOMINATOR)?;
    proof {
        assert(tge_amount <= total_purchased) by (nonlinear_arith)
            requires tge_amount == total_purchased * 2000 / 10000;
    }
    let remaining_after_tge = total_purchased - tge_amount;
    proof {
        assert(remaining_after_tge * elapsed / (VESTING_DURATION_SECONDS as int) <= remaining_after_tge)
            by (nonlinear_arith)
            requires 0 <= elapsed < VESTING_DURATION_SECONDS, 0 <= remaining_after_tge;
    }
    let linear_vested = mul_div_u64(remaining_after_tge, elapsed as u64, VESTING_DURATION_SECONDS as u64)?;
    Ok(tge_amount + linear_vested)
}

/// Law: what has vested never exceeds what was purchased.
pub proof fn lemma_vested_bounded(total_purchased: int, tge_timestamp: int, now: int)
    requires
        0 <= total_purchased,
    ensures
        0 <= vested_amount(total_purchased, tge_timestamp, now) <= total_purchased,
{
    if now > tge_timestamp && now - tge_timestamp < VESTING_DURATION_SECONDS {
        let tge = tge_unlocked(total_purchased);
        let elapsed = now - tge_timestamp;
        assert(0 <= tge <= total_purchased) by (nonlinear_arith)
            requires tge == total_purchased * 2000 / 10000, 0 <= total_purchased;
        assert(0 <= (total_purchased - tge) * elapsed / (VESTING_DURATION_SECONDS as int)
            <= total_purchased - tge) by (nonlinear_arith)
            requires 0 < elapsed < VESTING_DURATION_SECONDS, 0 <= total_purchased - tge;
    }
}

} // verus!
