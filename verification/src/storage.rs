use vstd::prelude::*;

use crate::account::AccountId;

verus! {

/// The keys under which the treasury keeps its state.
#[derive(Clone, Copy, Debug, PartialEq, Eq, Structural)]
pub enum DataKey {
    Admin,
    Balances,
    Members,
    /// Approvals required to execute a withdraw proposal.
    Threshold,
    /// Total proposals created, also the source of the next id.
    ProposalCount,
    /// A withdraw proposal by id.
    Proposal(u32),
    /// The token the treasury holds.
    TokenContract,
    /// The proposals contract allowed to withdraw.
    ProposalsContract,
}

/// The life cycle of a withdraw proposal.
#[derive(Clone, Copy, Debug, PartialEq, Eq, Structural)]
pub enum ProposalStatus {
    Active,
    Passed,
    Rejected,
    Executed,
}

/// A withdraw proposal as the treasury records it.
#[derive(Clone, Copy, Debug)]
pub struct WithdrawProposal {
    pub id: u32,
    pub proposer: AccountId,
    pub to: AccountId,
    pub token: AccountId,
    pub amount: i128,
    pub approvals: u32,
    pub rejections: u32,
    pub status: ProposalStatus,
    pub expires_at: u64,
}

/// Published when tokens enter the treasury.
#[derive(Clone, Copy, Debug)]
pub struct DepositEvent {
    pub from: AccountId,
    pub amount: i128,
}

/// Published when tokens leave the treasury.
#[derive(Clone, Copy, Debug)]
pub struct WithdrawEvent {
    pub to: AccountId,
    pub amount: i128,
}

/// Published when a member joins the group.
#[derive(Clone, Copy, Debug)]
pub struct MemberAddedEvent {
    pub member: AccountId,
    pub added_by: AccountId,
}

/// Published when a member leaves the group.
#[derive(Clone, Copy, Debug)]
pub struct MemberRemovedEvent {
    pub member: AccountId,
    pub removed_by: AccountId,
}

/// The list of group members.
pub type MemberList = Vec<AccountId>;

} // verus!
