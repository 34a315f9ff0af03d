//! Admin-only settings of the presale.
use vstd::prelude::*;

use crate::address::Address;
use crate::presale::constants::MAX_ACCEPTED_STABLES;
use crate::presale::errors::PresaleError;
use crate::presale::state::PresaleState;

verus! {

/// Accounts of an admin-only instruction: the signer and the presale state,
/// whose recorded admin the signer must be.
#[derive(Clone, Copy, Debug)]
pub struct AdminOnly {
    pub admin: Address,
    pub presale_state: PresaleState,
}

/// Accounts of `transfer_admin`.
#[derive(Clone, Copy, Debug)]
pub struct TransferAdmin {
    pub admin: Address,
    pub presale_state: PresaleState,
}

/// Accounts of `close_presale_state`.
#[derive(Clone, Copy, Debug)]
pub struct ClosePresaleState {
    pub admin: Address,
    pub presale_state: PresaleState,
}

/// The accepted-stables array for `mints`: the mints in order, then the zero
/// address in every unused slot.
pub open spec fn padded_stables(mints: Seq<Address>) -> Seq<Address> {
    Seq::new(
        MAX_ACCEPTED_STABLES as nat,
        |i: int| if i < mints.len() { mints[i] } else { Address::spec_zero() },
    )
}

/// Builds the fixed-size accepted-stables array from at most
/// `MAX_ACCEPTED_STABLES` mints.
pub fn pad_stables(mints: &Vec<Address>) -> (stables: [Address; MAX_ACCEPTED_STABLES])
    requires
        mints.len() <= MAX_ACCEPTED_STABLES,
    ensures
        stables@ == padded_stables(mints@),
{
    let z = Address::zero();
    let mut stables: [Address; MAX_ACCEPTED_STABLES] = [z, z, z, z];
    let n = mints.len();
    for i in 0..n
        invariant
            n == mints.len(),
            n <= MAX_ACCEPTED_STABLES,
            stables@ == Seq::new(
                MAX_ACCEPTED_STABLES as nat,
                |j: int| if j < i { mints@[j] } else { Address::spec_zero() },
            ),
    {
        stables[i] = mints[i];
        assert(stables@ =~= Seq::new(
            MAX_ACCEPTED_STABLES as nat,
            |j: int| if j < i + 1 { mints@[j] } else { Address::spec_zero() },
        ));
    }
    assert(stables@ =~= padded_stables(mints@));
    stables
}

/// Pauses or resumes purchases.
pub fn set_paused(ctx: &mut AdminOnly, paused: bool) -> (r: Result<(), PresaleError>)
    ensures
        r is Ok <==> old(ctx).admin == old(ctx).presale_state.admin,
        r matches Err(e) ==> e == PresaleError::Unauthorized && *final(ctx) == *old(ctx),
        r is Ok ==> *final(ctx) == (AdminOnly {
            presale_state: PresaleState { is_paused: paused, ..old(ctx).presale_state },
            ..*old(ctx)
        }),
{
    if ctx.admin != ctx.presale_state.admin {
        return Err(PresaleError::Unauthorized);
    }
    ctx.presale_state.is_paused = paused;
    Ok(())
}

/// Points SOL proceeds and the stable-coin sweep at a new vault.
pub fn update_vault(ctx: &mut AdminOnly, new_vault: Address) -> (r: Result<(), PresaleError>)
    ensures
        r is Ok <==> old(ctx).admin == old(ctx).presale_state.admin,
        r matches Err(e) ==> e == PresaleError::Unauthorized && *final(ctx) == *old(ctx),
        r is Ok ==> *final(ctx) == (AdminOnly {
            presale_state: PresaleState { vault: new_vault, ..old(ctx).presale_state },
            ..*old(ctx)
        }),
{
    if ctx.admin != ctx.presale_state.admin {
        return Err(PresaleError::Unauthorized);
    }
    ctx.presale_state.vault = new_vault;
    Ok(())
}

/// Replaces the SOL/USD price account.
pub fn update_price_feed(ctx: &mut AdminOnly, new_feed: Address) -> (r: Result<(), PresaleError>)
    ensures
        r is Ok <==> old(ctx).admin == old(ctx).presale_state.admin,
        r matches Err(e) ==> e == PresaleError::Unauthorized && *final(ctx) == *old(ctx),
        r is Ok ==> *final(ctx) == (AdminOnly {
            presale_state: PresaleState { sol_usd_price_feed: new_feed, ..old(ctx).presale_state },
            ..*old(ctx)
        }),
{
    if ctx.admin != ctx.presale_state.admin {
        return Err(PresaleError::Unauthorized);
    }
    ctx.presale_state.sol_usd_price_feed = new_feed;
    Ok(())
}

/// Replaces the list of accepted stable-coin mints (at most
/// `MAX_ACCEPTED_STABLES`; unused slots hold the zero address).
pub fn update_accepted_stables(ctx: &mut AdminOnly, mints: Vec<Address>) -> (r: Result<(), PresaleError>)
    ensures
        r is Ok <==> old(ctx).admin == old(ctx).presale_state.admin && mints.len()
            <= MAX_ACCEPTED_STABLES,
        r matches Err(e) ==> *final(ctx) == *old(ctx) && e == if old(ctx).admin
            != old(ctx).presale_state.admin {
            PresaleError::Unauthorized
        } else {
            PresaleError::TooManyStables
        },
        r is Ok ==> {
            &&& final(ctx).presale_state.accepted_stables@ == padded_stables(mints@)
            &&& final(ctx).presale_state.accepted_stables_len == mints.len()
            &&& *final(ctx) == (AdminOnly {
                presale_state: PresaleState {
                    accepted_stables: final(ctx).presale_state.accepted_stables,
                    accepted_stables_len: final(ctx).presale_state.accepted_stables_len,
                    ..old(ctx).presale_state
                },
                ..*old(ctx)
            })
        },
{
    if ctx.admin != ctx.presale_state.admin {
        return Err(PresaleError::Unauthorized);
    }
    if mints.len() > MAX_ACCEPTED_STABLES {
        return Err(PresaleError::TooManyStables);
    }
    let stables = pad_stables(&mints);
    ctx.presale_state.accepted_stables = stables;
    ctx.presale_state.accepted_stables_len = mints.len() as u8;
    Ok(())
}

/// Hands the admin role to `new_admin`.
pub fn transfer_admin(ctx: &mut TransferAdmin, new_admin: Address) -> (r: Result<(), PresaleError>)
    ensures
        r is Ok <==> old(ctx).admin == old(ctx).presale_state.admin,
        r matches Err(e) ==> e == PresaleError::Unauthorized && *final(ctx) == *old(ctx),
        r is Ok ==> *final(ctx) == (TransferAdmin {
            presale_state: PresaleState { admin: new_admin, ..old(ctx).presale_state },
            ..*old(ctx)
        }),
{
    if ctx.admin != ctx.presale_state.admin {
        return Err(PresaleError::Unauthorized);
    }
    ctx.presale_state.admin = new_admin;
    Ok(())
}

/// Decides whether the global state may be closed (its rent returned to the
/// admin) so that `initialize` can run again: only the admin may, and only
/// while no tokens have been sold.
pub fn close_presale_state(ctx: &ClosePresaleState) -> (r: Result<(), PresaleError>)
    ensures
        r is Ok <==> ctx.admin == ctx.presale_state.admin && ctx.presale_state.total_tokens_sold
            == 0,
        r matches Err(e) ==> e == if ctx.admin != ctx.presale_state.admin {
            PresaleError::Unauthorized
        } else {
            PresaleError::StateNotEmpty
        },
{
    if ctx.admin != ctx.presale_state.admin {
        return Err(PresaleError::Unauthorized);
    }
    if ctx.presale_state.total_tokens_sold != 0 {
        return Err(PresaleError::StateNotEmpty);
    }
    Ok(())
}

} // verus!
