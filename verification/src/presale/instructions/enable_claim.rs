//! Turning on claims and fixing the TGE timestamp.
use vstd::prelude::*;

use crate::address::Address;
use crate::presale::errors::PresaleError;
use crate::presale::state::PresaleState;

verus! {

/// Accounts of `enable_claim`: the signer, the global state, and the SLAM
/// token vault passed in with its balance.
#[derive(Clone, Copy, Debug)]
pub struct EnableClaim {
    pub admin: Address,
    pub presale_state: PresaleState,
    pub token_vault: Address,
    pub token_vault_amount: u64,
}

/// The outcome of `enable_claim`.
pub open spec fn enable_claim_result(ctx: EnableClaim) -> Result<(), PresaleError> {
    let st = ctx.presale_state;
    if ctx.admin != st.admin {
        Err(PresaleError::Unauthorized)
    } else if ctx.token_vault != st.token_vault {
        Err(PresaleError::Unauthorized)
    } else if !st.is_finalized {
        Err(PresaleError::NotFinalized)
    } else if st.is_claim_active {
        Err(PresaleError::ClaimAlreadyActive)
    } else if ctx.token_vault_amount < st.total_tokens_sold {
        Err(PresaleError::InsufficientVaultBalance)
    } else {
        Ok(())
    }
}

/// Admin-only. Once the raise is finalized, activates claiming once, with
/// vesting measured from `tge_timestamp`; the token vault must already hold
/// every token sold.
pub fn handler(ctx: &mut EnableClaim, tge_timestamp: i64) -> (r: Result<(), PresaleError>)
    ensures
        r == enable_claim_result(*old(ctx)),
        r is Ok ==> *final(ctx) == (EnableClaim {
            presale_state: PresaleState {
                is_claim_active: true,
                tge_timestamp: tge_timestamp,
                ..old(ctx).presale_state
            },
            ..*old(ctx)
        }),
        r is Err ==> *final(ctx) == *old(ctx),
{
    if ctx.admin != ctx.presale_state.admin {
        return Err(PresaleError::Unauthorized);
    }
    if ctx.token_vault != ctx.presale_state.token_vault {
        return Err(PresaleError::Unauthorized);
    }
    if !ctx.presale_state.is_finalized {
        return Err(PresaleError::NotFinalized);
    }
    if ctx.presale_state.is_claim_active {
        return Err(PresaleError::ClaimAlreadyActive);
    }
    if ctx.token_vault_amount < ctx.presale_state.total_tokens_sold {
        return Err(PresaleError::InsufficientVaultBalance);
    }
    ctx.presale_state.is_claim_active = true;
    ctx.presale_state.tge_timestamp = tge_timestamp;
    Ok(())
}

} // verus!
