use vstd::prelude::*;

use crate::error::ErrorCode;

verus! {

pub const MIN_TITLE_LENGTH: usize = 10;
pub const MAX_TITLE_LENGTH: usize = 50;
pub const MAX_DESCRIPTION_LENGTH: usize = 500;

pub const MIN_NAME_LENGTH: usize = 2;
pub const MAX_NAME_LENGTH: usize = 50;
pub const MAX_IMAGE_LENGTH: usize = 500;

/// Proposal status: still open for votes or awaiting execution.
pub const STATUS_ACTIVE: u8 = 0;
/// Proposal status: passed, and its action was carried out.
pub const STATUS_PASSED: u8 = 1;
/// Proposal status: failed its vote; no funds moved.
pub const STATUS_FAILED: u8 = 2;

/// Proposal action: move the staked funds to the burn vault.
pub const ACTION_BURN: u8 = 0;
/// Proposal action: move the staked funds to the beneficiary.
pub const ACTION_TRANSFER: u8 = 1;

/// Vote side against a proposal.
pub const SIDE_NO: u8 = 0;
/// Vote side for a proposal.
pub const SIDE_YES: u8 = 1;

/// A 32-byte account address, held as two 128-bit halves.
#[derive(Clone, Copy, Debug, PartialEq, Eq, Structural)]
pub struct Key {
    pub hi: u128,
    pub lo: u128,
}

/// The platform-fee record.
#[derive(Clone, Copy, Debug, PartialEq, Eq, Structural)]
pub struct FeeAccount {
    pub fee_amount: u64,
}

/// An organisation: its configuration, its two vaults and its proposal counter.
#[derive(Clone, Debug)]
pub struct DAO {
    pub creator: Key,
    pub name: String,
    pub image: String,
    pub treasury_vault: Key,
    pub burn_vault: Key,
    /// Number of proposals created so far; also the sequence number of the next one.
    pub total_proposals: u64,
    /// Minimum yes votes for a proposal to pass.
    pub min_yes_votes: u64,
    pub proposal_creation_fee: u64,
    pub membership_fee: u64,
}

/// The record of one user's admission to one organisation.
#[derive(Clone, Copy, Debug, PartialEq, Eq, Structural)]
pub struct Membership {
    pub dao: Key,
    pub user: Key,
    pub joined_date: i64,
    pub active: bool,
}

/// A proposal to burn treasury funds or to pay them to a beneficiary.
#[derive(Clone, Debug)]
pub struct Proposal {
    pub creator: Key,
    pub beneficiary: Key,
    pub dao: Key,
    pub title: String,
    pub description: String,
    pub yes_votes: u64,
    pub no_votes: u64,
    pub token_amount: u64,
    /// One of `STATUS_ACTIVE`, `STATUS_PASSED`, `STATUS_FAILED`.
    pub status: u8,
    /// `ACTION_BURN` or `ACTION_TRANSFER`; any other value cannot be executed.
    pub action: u8,
    /// Deadline: votes are taken strictly before it, execution strictly after.
    pub end_date: i64,
    pub executed: bool,
    /// Whether vote costs go to the burn vault rather than the treasury.
    pub burn_on_vote: bool,
}

/// Cumulative votes that one voter has cast on one proposal.
#[derive(Clone, Copy, Debug, PartialEq, Eq, Structural)]
pub struct UserProposalVotes {
    pub amount: u64,
}

/// A movement of funds that the host must carry out: `amount` from account
/// `from` to account `to`, authorised by `authority`.
#[derive(Clone, Copy, Debug, PartialEq, Eq, Structural)]
pub struct Transfer {
    pub from: Key,
    pub to: Key,
    pub authority: Key,
    pub amount: u64,
}

/// The first bound that an organisation's name or image breaks, if any.
pub open spec fn dao_length_error(name: Seq<char>, image: Seq<char>) -> Option<ErrorCode> {
    if name.len() < MIN_NAME_LENGTH {
        Some(ErrorCode::NameTooShort)
    } else if name.len() > MAX_NAME_LENGTH {
        Some(ErrorCode::NameTooLong)
    } else if image.len() > MAX_IMAGE_LENGTH {
        Some(ErrorCode::ImageTooLong)
    } else {
        None
    }
}

/// The first bound that a proposal's title or description breaks, if any.
pub open spec fn proposal_length_error(title: Seq<char>, description: Seq<char>) -> Option<
    ErrorCode,
> {
    if title.len() > MAX_TITLE_LENGTH {
        Some(ErrorCode::NameTooLong)
    } else if title.len() < MIN_TITLE_LENGTH {
        Some(ErrorCode::NameTooShort)
    } else if description.len() > MAX_DESCRIPTION_LENGTH {
        Some(ErrorCode::DescriptionTooLong)
    } else {
        None
    }
}

impl DAO {
    /// Nonzero fees, and a name and image within bounds.
    pub open spec fn wf(self) -> bool {
        &&& self.membership_fee >= 1
        &&& self.proposal_creation_fee >= 1
        &&& dao_length_error(self.name@, self.image@) is None
    }

    /// Checks the name (2 to 50 characters) and the image (at most 500 characters).
    pub fn check_length(&self, name: &str, image: &str) -> (r: Result<(), ErrorCode>)
        ensures
            r == crate::error::as_result(dao_length_error(name@, image@)),
    {
        let name_len = name.unicode_len();
        if name_len < MIN_NAME_LENGTH {
            return Err(ErrorCode::NameTooShort);
        }
        if name_len > MAX_NAME_LENGTH {
            return Err(ErrorCode::NameTooLong);
        }
        if image.unicode_len() > MAX_IMAGE_LENGTH {
            return Err(ErrorCode::ImageTooLong);
        }
        Ok(())
    }
}

impl Proposal {
    /// A title and description within bounds, a known status, and executed
    /// exactly when passed.
    pub open spec fn wf(self) -> bool {
        &&& proposal_length_error(self.title@, self.description@) is None
        &&& self.status == STATUS_ACTIVE || self.status == STATUS_PASSED || self.status
            == STATUS_FAILED
        &&& self.executed <==> self.status == STATUS_PASSED
    }

    /// Checks the title (10 to 50 characters) and the description (at most 500 characters).
    pub fn check_length(&self, title: &str, description: &str) -> (r: Result<(), ErrorCode>)
        ensures
            r == crate::error::as_result(proposal_length_error(title@, description@)),
    {
        let title_len = title.unicode_len();
        if title_len > MAX_TITLE_LENGTH {
            return Err(ErrorCode::NameTooLong);
        }
        if title_len < MIN_TITLE_LENGTH {
            return Err(ErrorCode::NameTooShort);
        }
        if description.unicode_len() > MAX_DESCRIPTION_LENGTH {
            return Err(ErrorCode::DescriptionTooLong);
        }
        Ok(())
    }
}

} // verus!
