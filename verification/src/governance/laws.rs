//! Properties of governance that span its instructions.
use vstd::prelude::*;

use crate::governance::constants::{
    STATUS_ACTIVE, STATUS_PASSED, STATUS_REJECTED, SUMMARY_MAX, TIER_VOTE_MULT, TITLE_MAX,
};
use crate::governance::errors::GovError;
use crate::governance::state::{vote_weight, Proposal};
use crate::governance::{
    utf8_len, cast_vote_result, create_proposal_result, finalize_result, recorded_vote, CastVote,
    CreateProposal,
};

verus! {

/// Law (longer locks get more say): for the same principal, the voting
/// weight grows with the lock tier: 1x for Flexible, 1.5x for 6 months, 2x
/// for 12 months (rounded down).
pub proof fn lemma_vote_weight_grows_with_lock(amount: int, tier1: int, tier2: int)
    requires
        0 <= amount,
        0 <= tier1 <= tier2 < 3,
    ensures
        vote_weight(amount, tier1) <= vote_weight(amount, tier2),
        vote_weight(amount, 0) == amount,
        vote_weight(amount, 1) == amount * 3 / 2,
        vote_weight(amount, 2) == 2 * amount,
{
    let m1 = crate::governance::state::tier_vote_mult(tier1);
    let m2 = crate::governance::state::tier_vote_mult(tier2);
    assert(m1 <= m2);
    assert(amount * m1 / 100 <= amount * m2 / 100) by (nonlinear_arith)
        requires 0 <= amount, 0 <= m1 <= m2;
    assert(crate::governance::state::tier_vote_mult(0) == 100);
    assert(crate::governance::state::tier_vote_mult(2) == 200);
    assert(amount * 150 / 100 == amount * 3 / 2) by (nonlinear_arith)
        requires 0 <= amount;
    assert(amount * 100 / 100 == amount) by (nonlinear_arith)
        requires 0 <= amount;
    assert(amount * 200 / 100 == 2 * amount) by (nonlinear_arith)
        requires 0 <= amount;
}

/// Law (anti-recycling snapshot): a vote is only ever counted for a stake
/// that existed when the proposal opened, and it counts exactly the stake's
/// (positive) voting weight.
pub proof fn lemma_vote_uses_snapshot_weight(ctx: CastVote, choice: u8, now: i64)
    requires
        cast_vote_result(ctx, choice, now) is Ok,
    ensures
        ctx.voter_stake.staked_at <= ctx.proposal.created_at,
        cast_vote_result(ctx, choice, now)->Ok_0 == vote_weight(
            ctx.voter_stake.amount as int,
            ctx.voter_stake.tier as int,
        ),
        cast_vote_result(ctx, choice, now)->Ok_0 > 0,
{
}

/// Law (finality): once a proposal is finalized, as passed or rejected, it
/// can be neither voted on nor finalized again.
pub proof fn lemma_finalized_proposal_is_closed(ctx: CastVote, choice: u8, now: i64, later: i64)
    requires
        ctx.proposal.status == STATUS_PASSED || ctx.proposal.status == STATUS_REJECTED,
    ensures
        cast_vote_result(ctx, choice, now) is Err,
        finalize_result(ctx.proposal, later) == Err::<(), GovError>(GovError::NotActive),
{
}

/// Law (one vote per voter and proposal): once a vote is counted, voting
/// again with the record it wrote is refused with `AlreadyVoted`, whatever
/// the choice, the time or the stake.
pub proof fn lemma_one_vote_per_record(
    pre: CastVote,
    choice: u8,
    now: i64,
    again: CastVote,
    choice2: u8,
    now2: i64,
)
    requires
        cast_vote_result(pre, choice, now) is Ok,
        again.vote_record == recorded_vote(pre, choice, cast_vote_result(pre, choice, now)->Ok_0),
    ensures
        cast_vote_result(again, choice2, now2) == Err::<u64, GovError>(GovError::AlreadyVoted),
{
}

/// Law (a closed stake has no say): a stake that is not open (never opened,
/// or unstaked) can neither vote nor propose.
pub proof fn lemma_closed_stake_has_no_say(
    vote: CastVote,
    choice: u8,
    now: i64,
    propose: CreateProposal,
    title: Seq<char>,
    summary: Seq<char>,
    created_at: i64,
)
    requires
        !vote.vote_record.is_recorded,
        !vote.voter_stake.is_active,
        !propose.proposer_stake.is_active,
    ensures
        cast_vote_result(vote, choice, now) == Err::<u64, GovError>(GovError::NoVotingPower),
        create_proposal_result(propose, title, summary, created_at) == Err::<(), GovError>(
            GovError::NoVotingPower,
        ),
{
}

/// Law (the proposal threshold weighs the stake by its tier): for an open
/// stake of the proposer with a valid tier and a title and summary within
/// their limits, a proposal is refused as below the threshold exactly when
/// the stake's principal times its tier multiplier (in percent, rounded down)
/// is below `min_weight_to_propose`.
pub proof fn lemma_proposal_threshold_uses_vote_weight(
    ctx: CreateProposal,
    title: Seq<char>,
    summary: Seq<char>,
    now: i64,
)
    requires
        ctx.proposer_stake.is_active,
        ctx.proposer_stake.owner == ctx.proposer,
        utf8_len(title) <= TITLE_MAX,
        utf8_len(summary) <= SUMMARY_MAX,
        ctx.proposer_stake.tier < 3,
        ctx.proposer_stake.amount * TIER_VOTE_MULT@[ctx.proposer_stake.tier as int] / 100
            <= u64::MAX,
    ensures
        (create_proposal_result(ctx, title, summary, now) == Err::<(), GovError>(
            GovError::BelowProposalThreshold,
        )) <==> ctx.proposer_stake.amount * TIER_VOTE_MULT@[ctx.proposer_stake.tier as int] / 100
            < ctx.config.min_weight_to_propose,
        ctx.proposer_stake.tier == 2 ==> ((create_proposal_result(ctx, title, summary, now)
            == Err::<(), GovError>(GovError::BelowProposalThreshold)) <==> 2
            * ctx.proposer_stake.amount < ctx.config.min_weight_to_propose),
{
    let a = ctx.proposer_stake.amount as int;
    assert(a * 200 / 100 == 2 * a) by (nonlinear_arith)
        requires a >= 0;
}

} // verus!
