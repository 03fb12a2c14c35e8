use vstd::prelude::*;

verus! {

/// Every way an operation of the engine can be refused.
#[derive(Clone, Copy, Debug, PartialEq, Eq, Structural)]
pub enum ErrorCode {
    IsInitialized,
    IsStaked,
    NotStaked,
    NoTokens,
    /// An amount, or a counter derived from it, does not fit in 64 bits.
    InvalidTokenAmount,
    InsufficientFunds,
    InvalidDestination,
    InsufficientTreasuryBalance,
    InsufficientCollateral,
    InvalidInitialDeposit,
    InvalidLockUp,
    InvalidEndingSlot,
    InvalidVoteLimit,
    InvalidBeneficiary,
    LockupPeriodNotEnded,
    InvalidFee,
    NotAuthorized,
    ProposalAlreadyPassed,
    ProposalEnded,
    ProposalActive,
    ProposalAlreadyExecuted,
    InvalidProposalAction,
    InvalidProposalCreator,
    InvalidAdmins,
    InvalidProposal,
    NameTooLong,
    NameTooShort,
    BioTooLong,
    ImageTooLong,
    DescriptionTooLong,
    InvalidTokenMint,
    InvalidFeeAddress,
    AlreadyMember,
}

impl ErrorCode {
    /// The human-readable message of the error.
    pub fn message(&self) -> (r: &'static str) {
        match self {
            ErrorCode::IsInitialized => "Already initialized.",
            ErrorCode::IsStaked => "Tokens are already staked.",
            ErrorCode::NotStaked => "Tokens are not staked.",
            ErrorCode::NoTokens => "No tokens to stake.",
            ErrorCode::InvalidTokenAmount => "Invalid amount.",
            ErrorCode::InsufficientFunds => "Insufficient funds.",
            ErrorCode::InvalidDestination => "Invalid destination address.",
            ErrorCode::InsufficientTreasuryBalance => "Insufficient treasury balance.",
            ErrorCode::InsufficientCollateral => "Insufficient collateral balance.",
            ErrorCode::InvalidInitialDeposit => "Invalid deposit.",
            ErrorCode::InvalidLockUp => "Invalid minimum lock up period.",
            ErrorCode::InvalidEndingSlot => "Invalid ending slot.",
            ErrorCode::InvalidVoteLimit => "Invalid vote limit.",
            ErrorCode::InvalidBeneficiary => "Invalid beneficiary.",
            ErrorCode::LockupPeriodNotEnded => "Lockup period has not ended.",
            ErrorCode::InvalidFee => "Invalid fee.",
            ErrorCode::NotAuthorized => "Unauthorized user.",
            ErrorCode::ProposalAlreadyPassed => "Proposal has already passed.",
            ErrorCode::ProposalEnded => "The voting period has ended.",
            ErrorCode::ProposalActive => "The voting period has not ended.",
            ErrorCode::ProposalAlreadyExecuted => "Proposal already executed",
            ErrorCode::InvalidProposalAction => "Invalid proposal action.",
            ErrorCode::InvalidProposalCreator => "Invalid proposal creator.",
            ErrorCode::InvalidAdmins => "Admin length must be between 1 and 5.",
            ErrorCode::InvalidProposal => "DAO and Proposal mismatch.",
            ErrorCode::NameTooLong => "Name is too long.",
            ErrorCode::NameTooShort => "Name is too short.",
            ErrorCode::BioTooLong => "Bio is too long.",
            ErrorCode::ImageTooLong => "Image is too long.",
            ErrorCode::DescriptionTooLong => "Description is too long.",
            ErrorCode::InvalidTokenMint => "Invalid token mint",
            ErrorCode::InvalidFeeAddress => "Invalid fee address",
            ErrorCode::AlreadyMember => "Invalid token account",
        }
    }
}

/// `Ok(())` when no error was found, else the error found.
pub open spec fn as_result(e: Option<ErrorCode>) -> Result<(), ErrorCode> {
    match e {
        Some(e) => Err(e),
        None => Ok(()),
    }
}

} // verus!
