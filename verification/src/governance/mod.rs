//! SLAM governance: stake-weighted signaling votes on proposals, weight read
//! from a voter's stake in the staking program.
pub mod constants;
pub mod errors;
pub mod state;
pub mod laws;

use vstd::prelude::*;
use vstd::utf8::encode_utf8;

use crate::address::Address;
use crate::governance::constants::{
    CHOICE_NO, CHOICE_YES, MAX_VOTING_PERIOD_SECS, MIN_VOTING_PERIOD_SECS, STATUS_ACTIVE,
    STATUS_PASSED, STATUS_REJECTED, SUMMARY_MAX, TITLE_MAX,
};
use crate::governance::errors::GovError;
use crate::governance::state::{
    stake_weight, stake_weight_result, GovConfig, Proposal, VoteRecord,
};
use crate::staking::state::StakeAccount;

verus! {

/// The staking program's address (`FLaXjknGBuX9FYPLzs3CKecYYWVgYuC8nTQequTMxAcH`).
pub open spec fn spec_staking_program_id() -> Address {
    Address {
        w0: 0x5ddd_a445_9590_07d5,
        w1: 0x45f6_292e_46dc_f75d,
        w2: 0x2c99_4520_7bb9_30f7,
        w3: 0x5aac_12da_f1a5_8d46,
    }
}

/// The staking program's address.
pub fn staking_program_id() -> (a: Address)
    ensures
        a == spec_staking_program_id(),
{
    Address {
        w0: 0x5ddd_a445_9590_07d5,
        w1: 0x45f6_292e_46dc_f75d,
        w2: 0x2c99_4520_7bb9_30f7,
        w3: 0x5aac_12da_f1a5_8d46,
    }
}

/// Whether `secs` is an allowed voting period.
pub open spec fn valid_voting_period(secs: i64) -> bool {
    MIN_VOTING_PERIOD_SECS <= secs <= MAX_VOTING_PERIOD_SECS
}

/// The length in bytes of the UTF-8 encoding of `text`, as `str::len`
/// reports it.
pub open spec fn utf8_len(text: Seq<char>) -> usize {
    encode_utf8(text).len() as usize
}

/// Accounts of `initialize`: the admin, the new configuration and its bump.
#[derive(Clone, Copy, Debug)]
pub struct Initialize {
    pub admin: Address,
    pub config: GovConfig,
    pub config_bump: u8,
}

/// Accounts of `create_proposal`: the proposer, the configuration, the new
/// proposal and its bump, and the proposer's stake.
#[derive(Debug)]
pub struct CreateProposal {
    pub proposer: Address,
    pub config: GovConfig,
    pub proposal: Proposal,
    pub proposal_bump: u8,
    pub proposer_stake: StakeAccount,
}

/// Accounts of `set_params`.
#[derive(Clone, Copy, Debug)]
pub struct SetParams {
    pub admin: Address,
    pub config: GovConfig,
}

/// Accounts of `cast_vote`: the voter, the proposal and its address, the new
/// vote record and its bump, and the voter's stake.
#[derive(Debug)]
pub struct CastVote {
    pub voter: Address,
    pub proposal: Proposal,
    pub proposal_key: Address,
    pub vote_record: VoteRecord,
    pub vote_record_bump: u8,
    pub voter_stake: StakeAccount,
}

/// Accounts of `finalize`.
#[derive(Debug)]
pub struct Finalize {
    pub proposal: Proposal,
}

/// The outcome of `initialize`.
pub open spec fn initialize_result(staking_program: Address, voting_period_secs: i64) -> Result<(), GovError> {
    if staking_program != spec_staking_program_id() {
        Err(GovError::WrongStakeProgram)
    } else if !valid_voting_period(voting_period_secs) {
        Err(GovError::InvalidVotingPeriod)
    } else {
        Ok(())
    }
}

/// One-time setup. Records the staking program (which must be the SLAM
/// staking program), the voting period and the proposal threshold.
pub fn initialize(
    ctx: &mut Initialize,
    staking_program: Address,
    voting_period_secs: i64,
    min_weight_to_propose: u64,
) -> (r: Result<(), GovError>)
    ensures
        r == initialize_result(staking_program, voting_period_secs),
        r is Ok ==> *final(ctx) == (Initialize {
            config: GovConfig {
                admin: old(ctx).admin,
                staking_program: staking_program,
                proposal_count: 0,
                voting_period_secs: voting_period_secs,
                min_weight_to_propose: min_weight_to_propose,
                bump: old(ctx).config_bump,
            },
            ..*old(ctx)
        }),
        r is Err ==> *final(ctx) == *old(ctx),
{
    if staking_program != staking_program_id() {
        return Err(GovError::WrongStakeProgram);
    }
    if voting_period_secs < MIN_VOTING_PERIOD_SECS || voting_period_secs > MAX_VOTING_PERIOD_SECS {
        return Err(GovError::InvalidVotingPeriod);
    }
    ctx.config = GovConfig {
        admin: ctx.admin,
        staking_program,
        proposal_count: 0,
        voting_period_secs,
        min_weight_to_propose,
        bump: ctx.config_bump,
    };
    Ok(())
}

/// The outcome of `create_proposal`.
pub open spec fn create_proposal_result(ctx: CreateProposal, title: Seq<char>, summary: Seq<char>, now: i64) -> Result<(), GovError> {
    let w = stake_weight_result(ctx.proposer_stake);
    if !ctx.proposer_stake.is_active {
        Err(GovError::NoVotingPower)
    } else if ctx.proposer_stake.owner != ctx.proposer {
        Err(GovError::StakeOwnerMismatch)
    } else if !(utf8_len(title) <= TITLE_MAX && utf8_len(summary) <= SUMMARY_MAX) {
        Err(GovError::TextTooLong)
    } else if w is Err {
        Err(w->Err_0)
    } else if w->Ok_0 < ctx.config.min_weight_to_propose {
        Err(GovError::BelowProposalThreshold)
    } else if now + ctx.config.voting_period_secs > i64::MAX || now + ctx.config.voting_period_secs
        < i64::MIN {
        Err(GovError::MathOverflow)
    } else if ctx.config.proposal_count + 1 > u64::MAX {
        Err(GovError::MathOverflow)
    } else {
        Ok(())
    }
}

/// Opens a proposal numbered by the configuration's counter, if the
/// proposer's open stake has a weight that meets the threshold. Voting ends `now` plus the
/// voting period in force at creation.
pub fn create_proposal(ctx: &mut CreateProposal, title: String, summary: String, now: i64) -> (r: Result<(), GovError>)
    ensures
        r == create_proposal_result(*old(ctx), title@, summary@, now),
        r is Ok ==> {
            &&& final(ctx).proposal == (Proposal {
                id: old(ctx).config.proposal_count,
                proposer: old(ctx).proposer,
                title: title,
                summary: summary,
                created_at: now,
                voting_ends: (now + old(ctx).config.voting_period_secs) as i64,
                yes_weight: 0,
                no_weight: 0,
                status: STATUS_ACTIVE,
                bump: old(ctx).proposal_bump,
            })
            &&& final(ctx).config == (GovConfig {
                proposal_count: (old(ctx).config.proposal_count + 1) as u64,
                ..old(ctx).config
            })
            &&& final(ctx).proposer == old(ctx).proposer
            &&& final(ctx).proposal_bump == old(ctx).proposal_bump
            &&& final(ctx).proposer_stake == old(ctx).proposer_stake
        },
        r is Err ==> *final(ctx) == *old(ctx),
{
    if !ctx.proposer_stake.is_active {
        return Err(GovError::NoVotingPower);
    }
    if ctx.proposer_stake.owner != ctx.proposer {
        return Err(GovError::StakeOwnerMismatch);
    }
    if !(title.as_str().len() <= TITLE_MAX && summary.as_str().len() <= SUMMARY_MAX) {
        return Err(GovError::TextTooLong);
    }
    let weight = stake_weight(&ctx.proposer_stake)?;
    if weight < ctx.config.min_weight_to_propose {
        return Err(GovError::BelowProposalThreshold);
    }
    let id = ctx.config.proposal_count;
    let voting_ends = match now.checked_add(ctx.config.voting_period_secs) {
        Some(v) => v,
        None => return Err(GovError::MathOverflow),
    };
    let next = match id.checked_add(1) {
        Some(v) => v,
        None => return Err(GovError::MathOverflow),
    };
    ctx.proposal = Proposal {
        id,
        proposer: ctx.proposer,
        title,
        summary,
        created_at: now,
        voting_ends,
        yes_weight: 0,
        no_weight: 0,
        status: STATUS_ACTIVE,
        bump: ctx.proposal_bump,
    };
    ctx.config.proposal_count = next;
    Ok(())
}

/// The outcome of `cast_vote`: the weight counted, or the error.
pub open spec fn cast_vote_result(ctx: CastVote, choice: u8, now: i64) -> Result<u64, GovError> {
    let p = ctx.proposal;
    let w = stake_weight_result(ctx.voter_stake);
    if ctx.vote_record.is_recorded {
        Err(GovError::AlreadyVoted)
    } else if !ctx.voter_stake.is_active {
        Err(GovError::NoVotingPower)
    } else if ctx.voter_stake.owner != ctx.voter {
        Err(GovError::StakeOwnerMismatch)
    } else if !(choice == CHOICE_YES || choice == CHOICE_NO) {
        Err(GovError::InvalidChoice)
    } else if p.status != STATUS_ACTIVE {
        Err(GovError::NotActive)
    } else if now > p.voting_ends {
        Err(GovError::VotingClosed)
    } else if ctx.voter_stake.staked_at > p.created_at {
        Err(GovError::StakeTooNew)
    } else if w is Err {
        Err(w->Err_0)
    } else if w->Ok_0 == 0 {
        Err(GovError::NoVotingPower)
    } else if choice == CHOICE_YES && p.yes_weight + w->Ok_0 > u64::MAX {
        Err(GovError::MathOverflow)
    } else if choice == CHOICE_NO && p.no_weight + w->Ok_0 > u64::MAX {
        Err(GovError::MathOverflow)
    } else {
        Ok(w->Ok_0)
    }
}

/// The vote record that a successful `cast_vote` of `weight` writes.
pub open spec fn recorded_vote(ctx: CastVote, choice: u8, weight: u64) -> VoteRecord {
    VoteRecord {
        is_recorded: true,
        proposal: ctx.proposal_key,
        voter: ctx.voter,
        choice: choice,
        weight: weight,
        bump: ctx.vote_record_bump,
    }
}

/// Casts a stake-weighted vote (`choice`: 0 = no, 1 = yes) while the proposal
/// is active and open, once per voter and proposal, from an open stake. Only a stake that already existed when the proposal
/// opened may vote on it, so a pot of SLAM cannot be unstaked, restaked from
/// a fresh wallet and counted again. The vote record keeps the choice and
/// weight.
pub fn cast_vote(ctx: &mut CastVote, choice: u8, now: i64) -> (r: Result<u64, GovError>)
    ensures
        r == cast_vote_result(*old(ctx), choice, now),
        r matches Ok(weight) ==> {
            &&& final(ctx).proposal == if choice == CHOICE_YES {
                Proposal { yes_weight: (old(ctx).proposal.yes_weight + weight) as u64, ..old(ctx).proposal }
            } else {
                Proposal { no_weight: (old(ctx).proposal.no_weight + weight) as u64, ..old(ctx).proposal }
            }
            &&& final(ctx).vote_record == recorded_vote(*old(ctx), choice, weight)
            &&& final(ctx).voter == old(ctx).voter
            &&& final(ctx).proposal_key == old(ctx).proposal_key
            &&& final(ctx).vote_record_bump == old(ctx).vote_record_bump
            &&& final(ctx).voter_stake == old(ctx).voter_stake
        },
        r is Err ==> *final(ctx) == *old(ctx),
{
    if ctx.vote_record.is_recorded {
        return Err(GovError::AlreadyVoted);
    }
    if !ctx.voter_stake.is_active {
        return Err(GovError::NoVotingPower);
    }
    if ctx.voter_stake.owner != ctx.voter {
        return Err(GovError::StakeOwnerMismatch);
    }
    if !(choice == CHOICE_YES || choice == CHOICE_NO) {
        return Err(GovError::InvalidChoice);
    }
    if ctx.proposal.status != STATUS_ACTIVE {
        return Err(GovError::NotActive);
    }
    if now > ctx.proposal.voting_ends {
        return Err(GovError::VotingClosed);
    }
    if ctx.voter_stake.staked_at > ctx.proposal.created_at {
        return Err(GovError::StakeTooNew);
    }
    let weight = stake_weight(&ctx.voter_stake)?;
    if weight == 0 {
        return Err(GovError::NoVotingPower);
    }
    if choice == CHOICE_YES {
        ctx.proposal.yes_weight = match ctx.proposal.yes_weight.checked_add(weight) {
            Some(v) => v,
            None => return Err(GovError::MathOverflow),
        };
    } else {
        ctx.proposal.no_weight = match ctx.proposal.no_weight.checked_add(weight) {
            Some(v) => v,
            None => return Err(GovError::MathOverflow),
        };
    }
    ctx.vote_record = VoteRecord {
        is_recorded: true,
        proposal: ctx.proposal_key,
        voter: ctx.voter,
        choice,
        weight,
        bump: ctx.vote_record_bump,
    };
    Ok(weight)
}

/// Admin-only. Retunes the voting period and the proposal threshold; open
/// proposals keep the deadline stamped at their creation.
pub fn set_params(ctx: &mut SetParams, voting_period_secs: i64, min_weight_to_propose: u64) -> (r: Result<(), GovError>)
    ensures
        r is Ok <==> old(ctx).admin == old(ctx).config.admin && valid_voting_period(
            voting_period_secs,
        ),
        r matches Err(e) ==> *final(ctx) == *old(ctx) && e == if old(ctx).admin
            != old(ctx).config.admin {
            GovError::Unauthorized
        } else {
            GovError::InvalidVotingPeriod
        },
        r is Ok ==> *final(ctx) == (SetParams {
            config: GovConfig {
                voting_period_secs: voting_period_secs,
                min_weight_to_propose: min_weight_to_propose,
                ..old(ctx).config
            },
            ..*old(ctx)
        }),
{
    if ctx.admin != ctx.config.admin {
        return Err(GovError::Unauthorized);
    }
    if voting_period_secs < MIN_VOTING_PERIOD_SECS || voting_period_secs > MAX_VOTING_PERIOD_SECS {
        return Err(GovError::InvalidVotingPeriod);
    }
    ctx.config.voting_period_secs = voting_period_secs;
    ctx.config.min_weight_to_propose = min_weight_to_propose;
    Ok(())
}

/// The outcome of `finalize`.
pub open spec fn finalize_result(p: Proposal, now: i64) -> Result<(), GovError> {
    if p.status != STATUS_ACTIVE {
        Err(GovError::NotActive)
    } else if now <= p.voting_ends {
        Err(GovError::VotingOpen)
    } else {
        Ok(())
    }
}

/// After voting closes, locks in the outcome; anyone can call. Simple
/// majority of cast weight: the proposal passes exactly when the yes weight
/// exceeds the no weight, so a tie is rejected.
pub fn finalize(ctx: &mut Finalize, now: i64) -> (r: Result<(), GovError>)
    ensures
        r == finalize_result(old(ctx).proposal, now),
        r is Ok ==> final(ctx).proposal == (Proposal {
            status: if old(ctx).proposal.yes_weight > old(ctx).proposal.no_weight {
                STATUS_PASSED
            } else {
                STATUS_REJECTED
            },
            ..old(ctx).proposal
        }),
        r is Err ==> *final(ctx) == *old(ctx),
{
    if ctx.proposal.status != STATUS_ACTIVE {
        return Err(GovError::NotActive);
    }
    if now <= ctx.proposal.voting_ends {
        return Err(GovError::VotingOpen);
    }
    ctx.proposal.status = if ctx.proposal.yes_weight > ctx.proposal.no_weight {
        STATUS_PASSED
    } else {
        STATUS_REJECTED
    };
    Ok(())
}

} // verus!
