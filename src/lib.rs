//! Governance engine for a token-funded organisation: membership fees,
//! proposals over treasury funds, quadratic-cost voting and deadline-gated
//! execution.
//!
//! Every operation is a pure decision over plain account records. Where an
//! operation moves funds it hands back the [`Transfer`] that the host must
//! carry out; the host keeps the updated records only if that transfer
//! succeeds.

pub mod dao;
pub mod error;
pub mod fee;
pub mod proposal;
pub mod state;

pub use error::ErrorCode;
pub use state::{FeeAccount, Key, Membership, Proposal, Transfer, UserProposalVotes, DAO};
pub use dao::{create_dao, join_dao, CreateDAO, JoinDAO};
pub use fee::{initialize_fee_account, InitializeFeeAccount, PLATFORM_FEE};
pub use proposal::{
    create_proposal, execute_proposal, record_vote, vote_cost, vote_on_proposal, CreateProposal,
    ExecuteProposal, VoteOnProposal,
};
