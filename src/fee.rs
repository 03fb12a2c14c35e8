use vstd::prelude::*;

use crate::error::ErrorCode;
use crate::state::{FeeAccount, Key};

verus! {

/// Platform fee charged for each organisation created, in lamports.
pub const PLATFORM_FEE: u64 = 100000000;

/// What setting the platform fee reads and writes.
#[derive(Clone, Copy, Debug, PartialEq, Eq, Structural)]
pub struct InitializeFeeAccount {
    pub fee_account: FeeAccount,
    /// The caller.
    pub user: Key,
    /// The two platform owners allowed to set the fee.
    pub owner_1: Key,
    pub owner_2: Key,
}

/// Whether `user` is one of the two platform owners.
pub open spec fn is_platform_owner(ctx: InitializeFeeAccount) -> bool {
    ctx.user == ctx.owner_1 || ctx.user == ctx.owner_2
}

/// Sets (or resets) the platform fee to `PLATFORM_FEE`; only a platform owner may.
pub fn initialize_fee_account(ctx: &mut InitializeFeeAccount) -> (r: Result<(), ErrorCode>)
    ensures
        is_platform_owner(*old(ctx)) ==> r == Ok::<(), ErrorCode>(()) && *final(ctx) == (
        InitializeFeeAccount { fee_account: FeeAccount { fee_amount: PLATFORM_FEE }, ..*old(ctx) }),
        !is_platform_owner(*old(ctx)) ==> r == Err::<(), ErrorCode>(ErrorCode::NotAuthorized)
            && *final(ctx) == *old(ctx),
{
    if ctx.user != ctx.owner_1 && ctx.user != ctx.owner_2 {
        return Err(ErrorCode::NotAuthorized);
    }
    ctx.fee_account.fee_amount = PLATFORM_FEE;
    Ok(())
}

} // verus!
