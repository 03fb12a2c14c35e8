use vstd::prelude::*;

use crate::error::ErrorCode;
use crate::state::{
    proposal_length_error, Key, Proposal, Transfer, UserProposalVotes, ACTION_BURN,
    ACTION_TRANSFER, DAO, SIDE_NO, SIDE_YES, STATUS_ACTIVE, STATUS_FAILED, STATUS_PASSED,
};

verus! {

/// What creating a proposal reads and writes.
#[derive(Clone, Debug)]
pub struct CreateProposal {
    pub dao: DAO,
    pub dao_key: Key,
    /// The freshly allocated record, addressed by `dao.total_proposals`.
    pub proposal: Proposal,
    pub treasury_vault: Key,
    /// The treasury's balance when the proposal is made.
    pub treasury_balance: u64,
    /// The account that a passing transfer proposal pays.
    pub beneficiary: Key,
    /// The creator's token account, which pays the creation fee, and its mint.
    pub user_token_account: Key,
    pub user_token_mint: Key,
    /// The organisation's token mint.
    pub token_mint: Key,
    pub user: Key,
}

/// What voting on a proposal reads and writes.
#[derive(Clone, Debug)]
pub struct VoteOnProposal {
    pub dao_key: Key,
    pub proposal: Proposal,
    /// The voter's cumulative votes on this proposal (zero if none yet).
    pub user_proposal_votes: UserProposalVotes,
    pub treasury_vault: Key,
    pub burn_vault: Key,
    /// The voter's token account, which pays the vote cost.
    pub user_token_account: Key,
    pub user: Key,
    /// Decimal places of the organisation's token mint.
    pub decimals: u8,
}

/// What executing a proposal reads and writes.
#[derive(Clone, Debug)]
pub struct ExecuteProposal {
    pub dao: DAO,
    pub dao_key: Key,
    pub proposal: Proposal,
    pub treasury_vault: Key,
    pub burn_vault: Key,
    /// The account offered as the beneficiary's.
    pub beneficiary: Key,
}

/// The first reason to refuse a proposal, if any.
pub open spec fn create_proposal_error(
    ctx: CreateProposal,
    token_amount: u64,
    end_date: i64,
    title: Seq<char>,
    description: Seq<char>,
    now: i64,
) -> Option<ErrorCode> {
    if end_date <= now {
        Some(ErrorCode::InvalidEndingSlot)
    } else if token_amount > ctx.treasury_balance {
        Some(ErrorCode::InsufficientTreasuryBalance)
    } else if ctx.user_token_mint != ctx.token_mint {
        Some(ErrorCode::InvalidTokenMint)
    } else if proposal_length_error(title, description) is Some {
        proposal_length_error(title, description)
    } else if ctx.dao.total_proposals == u64::MAX {
        Some(ErrorCode::InvalidTokenAmount)
    } else {
        None
    }
}

/// Creating a proposal: the records afterwards, and either the new proposal's
/// sequence number with the creation-fee payment, or the error.
pub open spec fn create_proposal_step(
    ctx: CreateProposal,
    token_amount: u64,
    end_date: i64,
    title: String,
    description: String,
    action: u8,
    burn_on_vote: bool,
    now: i64,
) -> (CreateProposal, Result<(u64, Transfer), ErrorCode>) {
    match create_proposal_error(ctx, token_amount, end_date, title@, description@, now) {
        Some(e) => (ctx, Err(e)),
        None => (
            CreateProposal {
                dao: DAO { total_proposals: (ctx.dao.total_proposals + 1) as u64, ..ctx.dao },
                proposal: Proposal {
                    creator: ctx.user,
                    beneficiary: ctx.beneficiary,
                    dao: ctx.dao_key,
                    title: title,
                    description: description,
                    yes_votes: 0,
                    no_votes: 0,
                    token_amount: token_amount,
                    status: STATUS_ACTIVE,
                    action: action,
                    end_date: end_date,
                    executed: false,
                    burn_on_vote: burn_on_vote,
                },
                ..ctx
            },
            Ok(
                (
                    ctx.dao.total_proposals,
                    Transfer {
                        from: ctx.user_token_account,
                        to: ctx.treasury_vault,
                        authority: ctx.user,
                        amount: ctx.dao.proposal_creation_fee,
                    },
                ),
            ),
        ),
    }
}

/// Creates an active proposal with no votes, addressed at the organisation's
/// current counter, and advances the counter. On success, returns that
/// sequence number and the creation-fee payment that the creator owes.
pub fn create_proposal(
    ctx: &mut CreateProposal,
    token_amount: u64,
    end_date: i64,
    title: String,
    description: String,
    action: u8,
    burn_on_vote: bool,
    now: i64,
) -> (r: Result<(u64, Transfer), ErrorCode>)
    ensures
        (*final(ctx), r) == create_proposal_step(
            *old(ctx),
            token_amount,
            end_date,
            title,
            description,
            action,
            burn_on_vote,
            now,
        ),
        r is Ok ==> r->Ok_0.0 == old(ctx).dao.total_proposals && final(ctx).dao.total_proposals
            == old(ctx).dao.total_proposals + 1,
        token_amount > old(ctx).treasury_balance ==> r is Err && *final(ctx) == *old(ctx),
        r is Ok ==> final(ctx).proposal.wf(),
        old(ctx).dao.wf() ==> final(ctx).dao.wf(),
{
    if end_date <= now {
        return Err(ErrorCode::InvalidEndingSlot);
    }
    if token_amount > ctx.treasury_balance {
        return Err(ErrorCode::InsufficientTreasuryBalance);
    }
    if ctx.user_token_mint != ctx.token_mint {
        return Err(ErrorCode::InvalidTokenMint);
    }
    ctx.proposal.check_length(title.as_str(), description.as_str())?;
    let seq = ctx.dao.total_proposals;
    if seq == u64::MAX {
        return Err(ErrorCode::InvalidTokenAmount);
    }
    ctx.proposal = Proposal {
        creator: ctx.user,
        beneficiary: ctx.beneficiary,
        dao: ctx.dao_key,
        title: title,
        description: description,
        yes_votes: 0,
        no_votes: 0,
        token_amount: token_amount,
        status: STATUS_ACTIVE,
        action: action,
        end_date: end_date,
        executed: false,
        burn_on_vote: burn_on_vote,
    };
    ctx.dao.total_proposals = seq + 1;
    Ok(
        (
            seq,
            Transfer {
                from: ctx.user_token_account,
                to: ctx.treasury_vault,
                authority: ctx.user,
                amount: ctx.dao.proposal_creation_fee,
            },
        ),
    )
}

/// Ten to the power `n`.
pub open spec fn pow10(n: nat) -> nat
    decreases n,
{
    if n == 0 {
        1
    } else {
        10 * pow10((n - 1) as nat)
    }
}

proof fn lemma_pow10_monotone(i: nat, j: nat)
    requires
        i <= j,
    ensures
        1 <= pow10(i) <= pow10(j),
    decreases j,
{
    if j > i {
        lemma_pow10_monotone(i, (j - 1) as nat);
    } else if i > 0 {
        lemma_pow10_monotone((i - 1) as nat, (i - 1) as nat);
    }
}

/// The cost of a vote: the square of the voter's cumulative votes, in whole
/// tokens of a mint with `decimals` decimal places.
pub open spec fn quadratic_cost(previous: u64, amount: u64, decimals: u8) -> int {
    (previous + amount) * (previous + amount) * pow10(decimals as nat)
}

/// Computes `quadratic_cost`, or `None` where it does not fit in 64 bits.
pub fn vote_cost(previous: u64, amount: u64, decimals: u8) -> (r: Option<u64>)
    ensures
        match r {
            Some(c) => c == quadratic_cost(previous, amount, decimals),
            None => quadratic_cost(previous, amount, decimals) > u64::MAX,
        },
{
    let ghost scale_all = pow10(decimals as nat);
    proof {
        lemma_pow10_monotone(0, decimals as nat);
    }
    let total = match previous.checked_add(amount) {
        Some(t) => t,
        None => {
            proof {
                let t = previous + amount;
                assert(t * t * scale_all >= t) by (nonlinear_arith)
                    requires
                        t >= 1,
                        scale_all >= 1,
                ;
            }
            return None;
        },
    };
    let square = match total.checked_mul(total) {
        Some(s) => s,
        None => {
            proof {
                let s = total * total;
                assert(s * scale_all >= s) by (nonlinear_arith)
                    requires
                        s >= 0,
                        scale_all >= 1,
                ;
            }
            return None;
        },
    };
    if square == 0 {
        assert(total == 0) by (nonlinear_arith)
            requires
                total * total == 0,
        ;
        return Some(0);
    }
    let mut scale: u64 = 1;
    let mut i: u8 = 0;
    while i < decimals
        invariant
            i <= decimals,
            scale == pow10(i as nat),
            total == previous + amount,
            square == total * total,
            square >= 1,
            scale_all == pow10(decimals as nat),
            scale_all >= 1,
        decreases decimals - i,
    {
        match scale.checked_mul(10) {
            Some(s) => {
                scale = s;
            },
            None => {
                proof {
                    lemma_pow10_monotone((i + 1) as nat, decimals as nat);
                    assert(pow10((i + 1) as nat) == 10 * scale);
                    assert(square * scale_all >= scale_all) by (nonlinear_arith)
                        requires
                            square >= 1,
                            scale_all >= 1,
                    ;
                    assert(quadratic_cost(previous, amount, decimals) == square * scale_all);
                    assert(scale_all > u64::MAX);
                }
                return None;
            },
        }
        i = i + 1;
    }
    square.checked_mul(scale)
}

/// The charge for casting `amount` more votes, or the error.
pub open spec fn vote_charge(ctx: VoteOnProposal, amount: u64, now: i64) -> Result<
    Transfer,
    ErrorCode,
> {
    let cost = quadratic_cost(ctx.user_proposal_votes.amount, amount, ctx.decimals);
    if ctx.proposal.end_date <= now {
        Err(ErrorCode::ProposalEnded)
    } else if ctx.proposal.dao != ctx.dao_key {
        Err(ErrorCode::InvalidProposal)
    } else if cost > u64::MAX {
        Err(ErrorCode::InvalidTokenAmount)
    } else {
        Ok(
            Transfer {
                from: ctx.user_token_account,
                to: if ctx.proposal.burn_on_vote {
                    ctx.burn_vault
                } else {
                    ctx.treasury_vault
                },
                authority: ctx.user,
                amount: cost as u64,
            },
        )
    }
}

/// The first half of a vote: checks the deadline and the organisation, and
/// returns the payment that the voter owes. The cost is quadratic in the
/// voter's cumulative votes, previous and new together, and is charged in
/// full on every vote. It goes to the burn vault if the proposal burns votes,
/// else to the treasury. Once the payment is made, `record_vote` counts the votes.
pub fn vote_on_proposal(ctx: &VoteOnProposal, amount: u64, now: i64) -> (r: Result<
    Transfer,
    ErrorCode,
>)
    ensures
        r == vote_charge(*ctx, amount, now),
        now >= ctx.proposal.end_date ==> r == Err::<Transfer, ErrorCode>(ErrorCode::ProposalEnded),
        r is Ok ==> r->Ok_0.amount == quadratic_cost(
            ctx.user_proposal_votes.amount,
            amount,
            ctx.decimals,
        ),
{
    if ctx.proposal.end_date <= now {
        return Err(ErrorCode::ProposalEnded);
    }
    if ctx.proposal.dao != ctx.dao_key {
        return Err(ErrorCode::InvalidProposal);
    }
    let cost = match vote_cost(ctx.user_proposal_votes.amount, amount, ctx.decimals) {
        Some(c) => c,
        None => {
            return Err(ErrorCode::InvalidTokenAmount);
        },
    };
    let to = if ctx.proposal.burn_on_vote {
        ctx.burn_vault
    } else {
        ctx.treasury_vault
    };
    Ok(Transfer { from: ctx.user_token_account, to: to, authority: ctx.user, amount: cost })
}

/// Counting `amount` votes on `side` once they are paid for: the records
/// afterwards, and the result.
pub open spec fn record_vote_step(ctx: VoteOnProposal, amount: u64, side: u8) -> (
    VoteOnProposal,
    Result<(), ErrorCode>,
) {
    let tally = if side == SIDE_YES {
        ctx.proposal.yes_votes
    } else {
        ctx.proposal.no_votes
    };
    if side != SIDE_NO && side != SIDE_YES {
        (ctx, Err(ErrorCode::InvalidVoteLimit))
    } else if tally + amount > u64::MAX || ctx.user_proposal_votes.amount + amount > u64::MAX {
        (ctx, Err(ErrorCode::InvalidTokenAmount))
    } else {
        (
            VoteOnProposal {
                proposal: if side == SIDE_YES {
                    Proposal { yes_votes: (tally + amount) as u64, ..ctx.proposal }
                } else {
                    Proposal { no_votes: (tally + amount) as u64, ..ctx.proposal }
                },
                user_proposal_votes: UserProposalVotes {
                    amount: (ctx.user_proposal_votes.amount + amount) as u64,
                },
                ..ctx
            },
            Ok(()),
        )
    }
}

/// The second half of a vote, once its payment is made: adds `amount` to the
/// yes (`SIDE_YES`) or no (`SIDE_NO`) tally and to the voter's cumulative
/// votes. Any other side is refused with `InvalidVoteLimit`, after the payment.
pub fn record_vote(ctx: &mut VoteOnProposal, amount: u64, side: u8) -> (r: Result<
    (),
    ErrorCode,
>)
    ensures
        (*final(ctx), r) == record_vote_step(*old(ctx), amount, side),
        old(ctx).proposal.wf() ==> final(ctx).proposal.wf(),
{
    if side != SIDE_NO && side != SIDE_YES {
        return Err(ErrorCode::InvalidVoteLimit);
    }
    let total = match ctx.user_proposal_votes.amount.checked_add(amount) {
        Some(t) => t,
        None => {
            return Err(ErrorCode::InvalidTokenAmount);
        },
    };
    if side == SIDE_YES {
        match ctx.proposal.yes_votes.checked_add(amount) {
            Some(y) => {
                ctx.proposal.yes_votes = y;
            },
            None => {
                return Err(ErrorCode::InvalidTokenAmount);
            },
        }
    } else {
        match ctx.proposal.no_votes.checked_add(amount) {
            Some(n) => {
                ctx.proposal.no_votes = n;
            },
            None => {
                return Err(ErrorCode::InvalidTokenAmount);
            },
        }
    }
    ctx.user_proposal_votes.amount = total;
    Ok(())
}

/// Whether a proposal's tally passes: more yes than no votes, and at least
/// the organisation's minimum of yes votes.
pub open spec fn passes(proposal: Proposal, min_yes_votes: u64) -> bool {
    proposal.yes_votes > proposal.no_votes && proposal.yes_votes >= min_yes_votes
}

/// The payment that carries out a passing proposal's action, if the action is known.
pub open spec fn action_payment(ctx: ExecuteProposal) -> Option<Transfer> {
    let to = if ctx.proposal.action == ACTION_BURN {
        ctx.burn_vault
    } else {
        ctx.beneficiary
    };
    if ctx.proposal.action == ACTION_BURN || ctx.proposal.action == ACTION_TRANSFER {
        Some(
            Transfer {
                from: ctx.treasury_vault,
                to: to,
                authority: ctx.treasury_vault,
                amount: ctx.proposal.token_amount,
            },
        )
    } else {
        None
    }
}

/// Executing a proposal: the records afterwards, and either the payment to
/// make (none when the proposal failed) or the error.
pub open spec fn execute_step(ctx: ExecuteProposal, now: i64) -> (
    ExecuteProposal,
    Result<Option<Transfer>, ErrorCode>,
) {
    if ctx.proposal.end_date >= now {
        (ctx, Err(ErrorCode::ProposalActive))
    } else if ctx.proposal.dao != ctx.dao_key {
        (ctx, Err(ErrorCode::InvalidProposal))
    } else if ctx.proposal.status != STATUS_ACTIVE {
        (ctx, Err(ErrorCode::ProposalAlreadyExecuted))
    } else if !passes(ctx.proposal, ctx.dao.min_yes_votes) {
        (
            ExecuteProposal { proposal: Proposal { status: STATUS_FAILED, ..ctx.proposal }, ..ctx },
            Ok(None),
        )
    } else if ctx.beneficiary != ctx.proposal.beneficiary {
        (ctx, Err(ErrorCode::InvalidBeneficiary))
    } else {
        match action_payment(ctx) {
            Some(t) => (
                ExecuteProposal {
                    proposal: Proposal { status: STATUS_PASSED, executed: true, ..ctx.proposal },
                    ..ctx
                },
                Ok(Some(t)),
            ),
            None => (ctx, Err(ErrorCode::InvalidProposalAction)),
        }
    }
}

/// Settles a proposal after its deadline, once. A failing tally marks it
/// failed and moves nothing. A passing one marks it passed and executed and
/// returns the payment of `token_amount` out of the treasury, under the
/// treasury's own authority: to the burn vault for `ACTION_BURN`, to the
/// beneficiary for `ACTION_TRANSFER`.
pub fn execute_proposal(ctx: &mut ExecuteProposal, now: i64) -> (r: Result<
    Option<Transfer>,
    ErrorCode,
>)
    ensures
        (*final(ctx), r) == execute_step(*old(ctx), now),
        final(ctx).dao == old(ctx).dao,
        now <= old(ctx).proposal.end_date ==> r == Err::<Option<Transfer>, ErrorCode>(
            ErrorCode::ProposalActive,
        ),
        r is Err ==> *final(ctx) == *old(ctx),
        old(ctx).proposal.wf() ==> final(ctx).proposal.wf(),
        r == Ok::<Option<Transfer>, ErrorCode>(None) ==> final(ctx).proposal.status
            == STATUS_FAILED && final(ctx).proposal.executed == old(ctx).proposal.executed
            && !passes(
            old(ctx).proposal,
            old(ctx).dao.min_yes_votes,
        ),
        r matches Ok(Some(t)) ==> {
            &&& passes(old(ctx).proposal, old(ctx).dao.min_yes_votes)
            &&& final(ctx).proposal.status == STATUS_PASSED
            &&& final(ctx).proposal.executed
            &&& t.from == old(ctx).treasury_vault
            &&& t.amount == old(ctx).proposal.token_amount
            &&& old(ctx).proposal.action == ACTION_BURN ==> t.to == old(ctx).burn_vault
            &&& old(ctx).proposal.action == ACTION_TRANSFER ==> t.to == old(ctx).proposal.beneficiary
        },
{
    if ctx.proposal.end_date >= now {
        return Err(ErrorCode::ProposalActive);
    }
    if ctx.proposal.dao != ctx.dao_key {
        return Err(ErrorCode::InvalidProposal);
    }
    if ctx.proposal.status != STATUS_ACTIVE {
        return Err(ErrorCode::ProposalAlreadyExecuted);
    }
    if ctx.proposal.yes_votes <= ctx.proposal.no_votes {
        ctx.proposal.status = STATUS_FAILED;
        return Ok(None);
    }
    if ctx.proposal.yes_votes < ctx.dao.min_yes_votes {
        ctx.proposal.status = STATUS_FAILED;
        return Ok(None);
    }
    if ctx.beneficiary != ctx.proposal.beneficiary {
        return Err(ErrorCode::InvalidBeneficiary);
    }
    let to = if ctx.proposal.action == ACTION_BURN {
        ctx.burn_vault
    } else if ctx.proposal.action == ACTION_TRANSFER {
        ctx.beneficiary
    } else {
        return Err(ErrorCode::InvalidProposalAction);
    };
    ctx.proposal.status = STATUS_PASSED;
    ctx.proposal.executed = true;
    Ok(
        Some(
            Transfer {
                from: ctx.treasury_vault,
                to: to,
                authority: ctx.treasury_vault,
                amount: ctx.proposal.token_amount,
            },
        ),
    )
}

/// Sequence numbers are never reused: a proposal created on the organisation
/// record that an earlier creation left gets the next number, even where the
/// earlier proposal was executed (passed or failed) in between.
pub proof fn lemma_sequence_numbers_not_reused(
    first: CreateProposal,
    token_amount: u64,
    end_date: i64,
    title: String,
    description: String,
    action: u8,
    burn_on_vote: bool,
    now: i64,
    execution: ExecuteProposal,
    executed_at: i64,
    second: CreateProposal,
    token_amount2: u64,
    end_date2: i64,
    title2: String,
    description2: String,
    action2: u8,
    burn_on_vote2: bool,
    now2: i64,
)
    requires
        create_proposal_step(
            first,
            token_amount,
            end_date,
            title,
            description,
            action,
            burn_on_vote,
            now,
        ).1 is Ok,
        execution.dao == create_proposal_step(
            first,
            token_amount,
            end_date,
            title,
            description,
            action,
            burn_on_vote,
            now,
        ).0.dao,
        second.dao == execute_step(execution, executed_at).0.dao,
    ensures
        create_proposal_step(
            second,
            token_amount2,
            end_date2,
            title2,
            description2,
            action2,
            burn_on_vote2,
            now2,
        ).1 is Ok ==> create_proposal_step(
            second,
            token_amount2,
            end_date2,
            title2,
            description2,
            action2,
            burn_on_vote2,
            now2,
        ).1->Ok_0.0 == create_proposal_step(
            first,
            token_amount,
            end_date,
            title,
            description,
            action,
            burn_on_vote,
            now,
        ).1->Ok_0.0 + 1,
{
}

/// A proposal is settled at most once: after a successful execution, passed
/// or failed, executing it again at the same time or later is refused with
/// `ProposalAlreadyExecuted`, changes nothing and moves no funds.
pub proof fn lemma_single_execution(ctx: ExecuteProposal, now: i64, later: i64)
    requires
        execute_step(ctx, now).1 is Ok,
        now <= later,
    ensures
        execute_step(execute_step(ctx, now).0, later) == (
            execute_step(ctx, now).0,
            Err::<Option<Transfer>, ErrorCode>(ErrorCode::ProposalAlreadyExecuted),
        ),
{
}

/// Vote charges are cumulative, not marginal: once `first` votes are paid for
/// and counted, a further vote of `second` costs the square of all the
/// voter's votes, `first` and `second` included.
pub proof fn lemma_cumulative_charge(
    ctx: VoteOnProposal,
    first: u64,
    side: u8,
    now: i64,
    second: u64,
    later: i64,
)
    requires
        vote_charge(ctx, first, now) is Ok,
        record_vote_step(ctx, first, side).1 is Ok,
    ensures
        vote_charge(record_vote_step(ctx, first, side).0, second, later) matches Ok(t) ==> t.amount
            == (ctx.user_proposal_votes.amount + first + second) * (ctx.user_proposal_votes.amount
            + first + second) * pow10(ctx.decimals as nat),
{
}

} // verus!
