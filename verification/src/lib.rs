//! A verified model of a group treasury governed by member proposals.
//!
//! Two cooperating contracts are modelled: a treasury that holds a token
//! balance on behalf of a group of members, and a proposals contract in which
//! anyone may propose a withdrawal, vote on it during a voting period, and
//! execute it afterwards.  Every entry point is split into a decision over the
//! storage entries it reads and the effects it asks the host to perform.

mod account;
mod mock_token;
mod mock_treasury;
mod proposal_storage;
mod proposals;
mod storage;
mod treasury;
mod voting;

pub mod guarantees;
pub mod laws;
pub mod traces;

pub use account::{
    address_value_tag, law_xdr_encoding_is_injective, list_contains, xdr_encoding, AccountId,
    AddressKind,
};
pub use mock_token::{moved, transfer_accepted, BalanceEntry, Key, MockToken, MockTokenError};
pub use mock_treasury::{MockTreasury, Withdrawal};
pub use proposal_storage::{
    Proposal, ProposalCreatedEvent, ProposalExecutedEvent, ProposalsEvent, ProposalsKey,
    VoteCastEvent,
};
pub use proposals::{
    create_step, execute_step, initialize_step, stored, vote_step, Ballot, ProposalsContract,
    ProposalsState,
};
pub use storage::{
    DataKey, DepositEvent, MemberAddedEvent, MemberList, MemberRemovedEvent, ProposalStatus,
    WithdrawEvent, WithdrawProposal,
};
pub use treasury::{
    deposit_outcome, member_seq, set_proposals_step, treasury_initialize_step, withdraw_outcome,
    BalanceQuery, DepositPlan, GroupTreasuryContract, TokenTransfer, TreasuryError, TreasuryState,
    WithdrawPlan,
};
pub use voting::{
    create_outcome, decide_execution, decide_vote, execute_outcome, found, initialize_outcome,
    passes, read_proposal, upcoming_id, vote_outcome, with_vote, Execution, ProposalCreation,
    ProposalsConfig, ProposalsError, TreasuryWithdrawal, VoteRecord,
};
