//! One-time setup of the presale.
use vstd::prelude::*;

use crate::address::Address;
use crate::presale::constants::MAX_ACCEPTED_STABLES;
use crate::presale::errors::PresaleError;
use crate::presale::instructions::admin::{pad_stables, padded_stables};
use crate::presale::state::PresaleState;

verus! {

/// Accounts of `initialize`: the admin, the new global state, the SLAM mint,
/// the program's SLAM token vault, the proceeds vault, the SOL/USD price
/// account, and the bumps of the two program-derived addresses.
#[derive(Clone, Copy, Debug)]
pub struct Initialize {
    pub admin: Address,
    pub presale_state: PresaleState,
    pub slam_mint: Address,
    pub token_vault: Address,
    pub vault: Address,
    pub sol_usd_price_feed: Address,
    pub presale_state_bump: u8,
    pub vault_authority_bump: u8,
}

/// `st` is the state that `initialize` writes for these accounts and
/// arguments: the given addresses and window, the padded mint list, nothing
/// sold, nothing raised, not paused, not finalized, claiming off.
pub open spec fn initialized_state(
    ctx: Initialize,
    sale_start_ts: i64,
    sale_end_ts: i64,
    mints: Seq<Address>,
    st: PresaleState,
) -> bool {
    &&& st.admin == ctx.admin
    &&& st.vault == ctx.vault
    &&& st.slam_mint == ctx.slam_mint
    &&& st.token_vault == ctx.token_vault
    &&& st.sol_usd_price_feed == ctx.sol_usd_price_feed
    &&& st.accepted_stables@ == padded_stables(mints)
    &&& st.accepted_stables_len == mints.len()
    &&& st.sale_start_ts == sale_start_ts
    &&& st.sale_end_ts == sale_end_ts
    &&& st.current_round == 0
    &&& st.round_tokens_sold@ == seq![0u64]
    &&& st.total_tokens_sold == 0
    &&& st.total_usd_raised_micro == 0
    &&& !st.is_paused
    &&& !st.is_finalized
    &&& !st.is_claim_active
    &&& st.tge_timestamp == 0
    &&& st.bump == ctx.presale_state_bump
    &&& st.vault_authority_bump == ctx.vault_authority_bump
}

/// `post` is `pre` with its presale state initialized as `initialized_state`
/// describes; the other accounts are unchanged.
pub open spec fn initialize_applied(
    pre: Initialize,
    post: Initialize,
    sale_start_ts: i64,
    sale_end_ts: i64,
    mints: Seq<Address>,
) -> bool {
    &&& initialized_state(pre, sale_start_ts, sale_end_ts, mints, post.presale_state)
    &&& post.presale_state.wf()
    &&& post == (Initialize { presale_state: post.presale_state, ..pre })
}

/// Records the vault, SOL/USD price account, sale window and accepted
/// stable-coin mints. Refuses more than `MAX_ACCEPTED_STABLES` mints, then an
/// empty or inverted sale window. Prices and allocations are constants.
pub fn handler(
    ctx: &mut Initialize,
    sale_start_ts: i64,
    sale_end_ts: i64,
    accepted_stables: Vec<Address>,
) -> (r: Result<(), PresaleError>)
    ensures
        r is Ok <==> accepted_stables.len() <= MAX_ACCEPTED_STABLES && sale_end_ts > sale_start_ts,
        r matches Err(e) ==> *final(ctx) == *old(ctx) && e == if accepted_stables.len()
            > MAX_ACCEPTED_STABLES {
            PresaleError::TooManyStables
        } else {
            PresaleError::InvalidSaleWindow
        },
        r is Ok ==> initialize_applied(
            *old(ctx),
            *final(ctx),
            sale_start_ts,
            sale_end_ts,
            accepted_stables@,
        ),
{
    if accepted_stables.len() > MAX_ACCEPTED_STABLES {
        return Err(PresaleError::TooManyStables);
    }
    if sale_end_ts <= sale_start_ts {
        return Err(PresaleError::InvalidSaleWindow);
    }
    let stables = pad_stables(&accepted_stables);
    let state = PresaleState {
        admin: ctx.admin,
        vault: ctx.vault,
        slam_mint: ctx.slam_mint,
        token_vault: ctx.token_vault,
        sol_usd_price_feed: ctx.sol_usd_price_feed,
        accepted_stables: stables,
        accepted_stables_len: accepted_stables.len() as u8,
        sale_start_ts,
        sale_end_ts,
        current_round: 0,
        round_tokens_sold: [0u64],
        total_tokens_sold: 0,
        total_usd_raised_micro: 0,
        is_paused: false,
        is_finalized: false,
        is_claim_active: false,
        tge_timestamp: 0,
        bump: ctx.presale_state_bump,
        vault_authority_bump: ctx.vault_authority_bump,
    };
    assert(state.round_tokens_sold@ =~= seq![0u64]);
    ctx.presale_state = state;
    Ok(())
}

} // verus!
