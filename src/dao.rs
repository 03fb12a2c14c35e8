use vstd::prelude::*;

use crate::error::ErrorCode;
use crate::state::{dao_length_error, FeeAccount, Key, Membership, Transfer, DAO};

verus! {

/// What creating an organisation reads and writes.
#[derive(Clone, Debug)]
pub struct CreateDAO {
    /// The freshly allocated record that receives the configuration.
    pub dao: DAO,
    /// The two empty vaults allocated for the organisation.
    pub treasury_vault: Key,
    pub burn_vault: Key,
    pub fee_account: FeeAccount,
    /// Where the platform fee is paid.
    pub fee_account_key: Key,
    /// The creator, who pays the platform fee.
    pub user: Key,
}

/// What joining an organisation reads and writes.
#[derive(Clone, Debug)]
pub struct JoinDAO {
    pub dao: DAO,
    pub dao_key: Key,
    /// The record for this (organisation, user) pair; `active` once it exists.
    pub membership: Membership,
    pub treasury_vault: Key,
    /// The user's token account, which pays the membership fee.
    pub user_token_account: Key,
    pub user: Key,
}

/// The first reason to refuse the creation of an organisation, if any:
/// a zero fee, then a name or image out of bounds.
pub open spec fn create_dao_error(
    name: Seq<char>,
    image: Seq<char>,
    proposal_creation_fee: u64,
    membership_fee: u64,
) -> Option<ErrorCode> {
    if membership_fee < 1 || proposal_creation_fee < 1 {
        Some(ErrorCode::InvalidFee)
    } else {
        dao_length_error(name, image)
    }
}

/// The platform-fee payment owed by the creator.
pub open spec fn platform_fee_payment(ctx: CreateDAO) -> Transfer {
    Transfer {
        from: ctx.user,
        to: ctx.fee_account_key,
        authority: ctx.user,
        amount: ctx.fee_account.fee_amount,
    }
}

/// Creates an organisation with the given configuration, two empty vaults and
/// no proposals. On success, returns the platform-fee payment (a native
/// transfer, not a token transfer) that the creator owes.
pub fn create_dao(
    ctx: &mut CreateDAO,
    name: String,
    image: String,
    min_yes_votes: u64,
    proposal_creation_fee: u64,
    membership_fee: u64,
) -> (r: Result<Transfer, ErrorCode>)
    ensures
        membership_fee == 0 || proposal_creation_fee == 0 ==> r == Err::<Transfer, ErrorCode>(
            ErrorCode::InvalidFee,
        ) && *final(ctx) == *old(ctx),
        match r {
            Ok(t) => {
                &&& final(ctx).dao.wf()
                &&& create_dao_error(name@, image@, proposal_creation_fee, membership_fee) is None
                &&& t == platform_fee_payment(*old(ctx))
                &&& *final(ctx) == (CreateDAO {
                    dao: DAO {
                        creator: old(ctx).user,
                        name: name,
                        image: image,
                        treasury_vault: old(ctx).treasury_vault,
                        burn_vault: old(ctx).burn_vault,
                        total_proposals: 0,
                        min_yes_votes: min_yes_votes,
                        proposal_creation_fee: proposal_creation_fee,
                        membership_fee: membership_fee,
                    },
                    ..*old(ctx)
                })
            },
            Err(e) => {
                &&& create_dao_error(name@, image@, proposal_creation_fee, membership_fee)
                    == Some(e)
                &&& *final(ctx) == *old(ctx)
            },
        },
{
    if membership_fee < 1 {
        return Err(ErrorCode::InvalidFee);
    }
    if proposal_creation_fee < 1 {
        return Err(ErrorCode::InvalidFee);
    }
    ctx.dao.check_length(name.as_str(), image.as_str())?;
    let user = ctx.user;
    ctx.dao = DAO {
        creator: user,
        name: name,
        image: image,
        treasury_vault: ctx.treasury_vault,
        burn_vault: ctx.burn_vault,
        total_proposals: 0,
        min_yes_votes: min_yes_votes,
        proposal_creation_fee: proposal_creation_fee,
        membership_fee: membership_fee,
    };
    Ok(Transfer { from: user, to: ctx.fee_account_key, authority: user, amount: ctx.fee_account.fee_amount })
}

/// The membership-fee payment from the user to the treasury.
pub open spec fn membership_fee_payment(ctx: JoinDAO) -> Transfer {
    Transfer {
        from: ctx.user_token_account,
        to: ctx.treasury_vault,
        authority: ctx.user,
        amount: ctx.dao.membership_fee,
    }
}

/// Admits the user, dated `now`. Refused if the pair already has a record.
/// On success, returns the membership-fee payment that the user owes.
pub fn join_dao(ctx: &mut JoinDAO, now: i64) -> (r: Result<Transfer, ErrorCode>)
    ensures
        old(ctx).membership.active ==> r == Err::<Transfer, ErrorCode>(ErrorCode::AlreadyMember)
            && *final(ctx) == *old(ctx),
        !old(ctx).membership.active ==> r == Ok::<Transfer, ErrorCode>(
            membership_fee_payment(*old(ctx)),
        ) && *final(ctx) == (JoinDAO {
            membership: Membership {
                dao: old(ctx).dao_key,
                user: old(ctx).user,
                joined_date: now,
                active: true,
            },
            ..*old(ctx)
        }),
{
    if ctx.membership.active {
        return Err(ErrorCode::AlreadyMember);
    }
    ctx.membership = Membership { dao: ctx.dao_key, user: ctx.user, joined_date: now, active: true };
    Ok(
        Transfer {
            from: ctx.user_token_account,
            to: ctx.treasury_vault,
            authority: ctx.user,
            amount: ctx.dao.membership_fee,
        },
    )
}

} // verus!
