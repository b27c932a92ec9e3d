use vstd::prelude::*;

use crate::account::AccountId;
use crate::proposal_storage::{Proposal, ProposalCreatedEvent, ProposalExecutedEvent, VoteCastEvent};

verus! {

/// Why a call to the proposals contract is refused.
#[derive(Clone, Copy, Debug, PartialEq, Eq, Structural)]
pub enum ProposalsError {
    AlreadyInitialized,
    NotInitialized,
    AmountNotPositive,
    DurationNotPositive,
    ProposalNotFound,
    /// A vote at or after the end of the voting period.
    VotingEnded,
    /// A second vote by the same voter on the same proposal.
    AlreadyVoted,
    /// An execution before the end of the voting period.
    VotingNotEnded,
    AlreadyExecuted,
    /// A time, an id or a tally would leave the range of its integer type.
    Overflow,
    /// The treasury's withdrawal for a passed proposal failed.
    WithdrawalFailed,
}

impl ProposalsError {
    /// The message with which the contract aborts.
    pub fn message(&self) -> (r: &'static str)
        ensures
            *self == ProposalsError::AlreadyInitialized ==> r@ == "already initialized"@,
            *self == ProposalsError::NotInitialized ==> r@ == "not initialized"@,
            *self == ProposalsError::AmountNotPositive ==> r@ == "amount must be positive"@,
            *self == ProposalsError::DurationNotPositive ==> r@ == "duration must be positive"@,
            *self == ProposalsError::ProposalNotFound ==> r@ == "proposal not found"@,
            *self == ProposalsError::VotingEnded ==> r@ == "voting period has ended"@,
            *self == ProposalsError::AlreadyVoted ==> r@ == "already voted"@,
            *self == ProposalsError::VotingNotEnded ==> r@ == "voting period not yet ended"@,
            *self == ProposalsError::AlreadyExecuted ==> r@ == "proposal already executed"@,
            *self == ProposalsError::Overflow ==> r@ == "arithmetic overflow"@,
            *self == ProposalsError::WithdrawalFailed ==> r@ == "treasury withdrawal failed"@,
    {
        match self {
            ProposalsError::AlreadyInitialized => "already initialized",
            ProposalsError::NotInitialized => "not initialized",
            ProposalsError::AmountNotPositive => "amount must be positive",
            ProposalsError::DurationNotPositive => "duration must be positive",
            ProposalsError::ProposalNotFound => "proposal not found",
            ProposalsError::VotingEnded => "voting period has ended",
            ProposalsError::AlreadyVoted => "already voted",
            ProposalsError::VotingNotEnded => "voting period not yet ended",
            ProposalsError::AlreadyExecuted => "proposal already executed",
            ProposalsError::Overflow => "arithmetic overflow",
            ProposalsError::WithdrawalFailed => "treasury withdrawal failed",
        }
    }
}

/// What the proposals contract keeps in its instance storage.
#[derive(Clone, Copy, Debug)]
pub struct ProposalsConfig {
    pub admin: Option<AccountId>,
    pub treasury: Option<AccountId>,
    /// The id the next proposal gets; zero while unset.
    pub next_id: Option<u32>,
}

/// A proposal that `create_proposal` accepted.
#[derive(Debug)]
pub struct ProposalCreation {
    /// Whose authorisation the creation needs: the proposer's.
    pub authorizer: AccountId,
    pub id: u32,
    pub proposal: Proposal,
    pub event: ProposalCreatedEvent,
}

/// A vote that `cast_vote` accepted: the proposal with its new tally.
#[derive(Debug)]
pub struct VoteRecord {
    /// Whose authorisation the vote needs: the voter's.
    pub authorizer: AccountId,
    pub proposal: Proposal,
    pub event: VoteCastEvent,
}

/// A withdrawal that an executed proposal asks of the treasury.
#[derive(Clone, Copy, Debug)]
pub struct TreasuryWithdrawal {
    pub treasury: AccountId,
    pub to: AccountId,
    pub amount: i128,
}

/// An execution that `execute_proposal` accepted.
#[derive(Debug)]
pub struct Execution {
    /// The proposal, now marked executed.
    pub proposal: Proposal,
    /// The treasury withdrawal, present exactly when the proposal passed.
    pub withdrawal: Option<TreasuryWithdrawal>,
    pub event: ProposalExecutedEvent,
}

/// Whether a tally passes: strictly more approvals than rejections.
pub open spec fn passes(p: Proposal) -> bool {
    p.yes_votes > p.no_votes
}

/// What `initialize` does to the instance storage: refused once an admin is set.
pub open spec fn initialize_outcome(c: ProposalsConfig, admin: AccountId, treasury: AccountId) -> Result<
    ProposalsConfig,
    ProposalsError,
> {
    if c.admin is Some {
        Err(ProposalsError::AlreadyInitialized)
    } else {
        Ok(ProposalsConfig { admin: Some(admin), treasury: Some(treasury), next_id: Some(0) })
    }
}

/// The id the next proposal gets.
pub open spec fn upcoming_id(next_id: Option<u32>) -> u32 {
    match next_id {
        Some(id) => id,
        None => 0,
    }
}

/// What `create_proposal` answers: the new proposal's id and record, with no
/// votes, closing `duration_secs` after `now`.
pub open spec fn create_outcome(
    next_id: Option<u32>,
    proposer: AccountId,
    description: String,
    amount: i128,
    recipient: AccountId,
    duration_secs: u64,
    now: u64,
) -> Result<ProposalCreation, ProposalsError> {
    let id = upcoming_id(next_id);
    if amount <= 0 {
        Err(ProposalsError::AmountNotPositive)
    } else if duration_secs == 0 {
        Err(ProposalsError::DurationNotPositive)
    } else if now + duration_secs > u64::MAX || id == u32::MAX {
        Err(ProposalsError::Overflow)
    } else {
        Ok(
            ProposalCreation {
                authorizer: proposer,
                id,
                proposal: Proposal {
                    proposer,
                    description,
                    amount,
                    recipient,
                    yes_votes: 0,
                    no_votes: 0,
                    end_time: (now + duration_secs) as u64,
                    executed: false,
                },
                event: ProposalCreatedEvent { id, proposer, amount },
            },
        )
    }
}

/// The proposal `p` with one more approval or rejection.
pub open spec fn with_vote(p: Proposal, approve: bool) -> Proposal {
    if approve {
        Proposal { yes_votes: (p.yes_votes + 1) as u32, ..p }
    } else {
        Proposal { no_votes: (p.no_votes + 1) as u32, ..p }
    }
}

/// What `cast_vote` answers, given the stored proposal and whether `voter`
/// has voted on it.
pub open spec fn vote_outcome(
    stored: Option<Proposal>,
    already_voted: bool,
    proposal_id: u32,
    voter: AccountId,
    approve: bool,
    now: u64,
) -> Result<VoteRecord, ProposalsError> {
    match stored {
        None => Err(ProposalsError::ProposalNotFound),
        Some(p) => if now >= p.end_time {
            Err(ProposalsError::VotingEnded)
        } else if already_voted {
            Err(ProposalsError::AlreadyVoted)
        } else if (approve && p.yes_votes == u32::MAX) || (!approve && p.no_votes == u32::MAX) {
            Err(ProposalsError::Overflow)
        } else {
            Ok(
                VoteRecord {
                    authorizer: voter,
                    proposal: with_vote(p, approve),
                    event: VoteCastEvent { proposal_id, voter, approve },
                },
            )
        },
    }
}

/// What `execute_proposal` answers, given the stored proposal and the
/// treasury's address.
pub open spec fn execute_outcome(
    stored: Option<Proposal>,
    treasury: Option<AccountId>,
    proposal_id: u32,
    now: u64,
) -> Result<Execution, ProposalsError> {
    match stored {
        None => Err(ProposalsError::ProposalNotFound),
        Some(p) => if now < p.end_time {
            Err(ProposalsError::VotingNotEnded)
        } else if p.executed {
            Err(ProposalsError::AlreadyExecuted)
        } else if passes(p) {
            match treasury {
                None => Err(ProposalsError::NotInitialized),
                Some(t) => Ok(
                    Execution {
                        proposal: Proposal { executed: true, ..p },
                        withdrawal: Some(
                            TreasuryWithdrawal { treasury: t, to: p.recipient, amount: p.amount },
                        ),
                        event: ProposalExecutedEvent { proposal_id, passed: true },
                    },
                ),
            }
        } else {
            Ok(
                Execution {
                    proposal: Proposal { executed: true, ..p },
                    withdrawal: None,
                    event: ProposalExecutedEvent { proposal_id, passed: false },
                },
            )
        },
    }
}

/// The proposal a storage read found, by value.
pub open spec fn found(stored: Option<&Proposal>) -> Option<Proposal> {
    match stored {
        Some(p) => Some(*p),
        None => None,
    }
}

impl ProposalsConfig {
    /// Instance storage before initialisation.
    pub fn new() -> (r: ProposalsConfig)
        ensures
            r.admin is None && r.treasury is None && r.next_id is None,
    {
        ProposalsConfig { admin: None, treasury: None, next_id: None }
    }

    /// Records the admin and the treasury and resets the id counter, once.
    pub fn initialize(&mut self, admin: AccountId, treasury: AccountId) -> (r: Result<
        (),
        ProposalsError,
    >)
        ensures
            match initialize_outcome(*old(self), admin, treasury) {
                Ok(c) => r is Ok && *final(self) == c,
                Err(e) => r == Err::<(), ProposalsError>(e) && *final(self) == *old(self),
            },
    {
        if self.admin.is_some() {
            return Err(ProposalsError::AlreadyInitialized);
        }
        self.admin = Some(admin);
        self.treasury = Some(treasury);
        self.next_id = Some(0);
        Ok(())
    }

    /// Accepts or refuses a new proposal; on acceptance advances the id counter.
    pub fn open_proposal(
        &mut self,
        proposer: AccountId,
        description: String,
        amount: i128,
        recipient: AccountId,
        duration_secs: u64,
        now: u64,
    ) -> (r: Result<ProposalCreation, ProposalsError>)
        ensures
            r == create_outcome(
                old(self).next_id,
                proposer,
                description,
                amount,
                recipient,
                duration_secs,
                now,
            ),
            r matches Ok(c) ==> final(self).next_id == Some((c.id + 1) as u32),
            r is Err ==> final(self).next_id == old(self).next_id,
            final(self).admin == old(self).admin,
            final(self).treasury == old(self).treasury,
    {
        if amount <= 0 {
            return Err(ProposalsError::AmountNotPositive);
        }
        if duration_secs == 0 {
            return Err(ProposalsError::DurationNotPositive);
        }
        let id: u32 = match self.next_id {
            Some(id) => id,
            None => 0,
        };
        let end_time: u64 = match now.checked_add(duration_secs) {
            Some(t) => t,
            None => {
                return Err(ProposalsError::Overflow);
            },
        };
        let next: u32 = match id.checked_add(1) {
            Some(n) => n,
            None => {
                return Err(ProposalsError::Overflow);
            },
        };
        self.next_id = Some(next);
        Ok(
            ProposalCreation {
                authorizer: proposer,
                id,
                proposal: Proposal {
                    proposer,
                    description,
                    amount,
                    recipient,
                    yes_votes: 0,
                    no_votes: 0,
                    end_time,
                    executed: false,
                },
                event: ProposalCreatedEvent { id, proposer, amount },
            },
        )
    }
}

/// Accepts or refuses a vote by `voter` on the stored proposal `stored`.
pub fn decide_vote(
    stored: Option<&Proposal>,
    already_voted: bool,
    proposal_id: u32,
    voter: AccountId,
    approve: bool,
    now: u64,
) -> (r: Result<VoteRecord, ProposalsError>)
    ensures
        r == vote_outcome(found(stored), already_voted, proposal_id, voter, approve, now),
{
    let p = match stored {
        None => {
            return Err(ProposalsError::ProposalNotFound);
        },
        Some(p) => p,
    };
    if now >= p.end_time {
        return Err(ProposalsError::VotingEnded);
    }
    if already_voted {
        return Err(ProposalsError::AlreadyVoted);
    }
    let mut updated = p.duplicate();
    if approve {
        match p.yes_votes.checked_add(1) {
            None => {
                return Err(ProposalsError::Overflow);
            },
            Some(n) => {
                updated.yes_votes = n;
            },
        }
    } else {
        match p.no_votes.checked_add(1) {
            None => {
                return Err(ProposalsError::Overflow);
            },
            Some(n) => {
                updated.no_votes = n;
            },
        }
    }
    Ok(
        VoteRecord {
            authorizer: voter,
            proposal: updated,
            event: VoteCastEvent { proposal_id, voter, approve },
        },
    )
}

/// Accepts or refuses the execution of the stored proposal `stored`.
pub fn decide_execution(
    stored: Option<&Proposal>,
    treasury: Option<AccountId>,
    proposal_id: u32,
    now: u64,
) -> (r: Result<Execution, ProposalsError>)
    ensures
        r == execute_outcome(found(stored), treasury, proposal_id, now),
{
    let p = match stored {
        None => {
            return Err(ProposalsError::ProposalNotFound);
        },
        Some(p) => p,
    };
    if now < p.end_time {
        return Err(ProposalsError::VotingNotEnded);
    }
    if p.executed {
        return Err(ProposalsError::AlreadyExecuted);
    }
    let mut updated = p.duplicate();
    updated.executed = true;
    let passed = p.yes_votes > p.no_votes;
    if passed {
        match treasury {
            None => Err(ProposalsError::NotInitialized),
            Some(t) => Ok(
                Execution {
                    proposal: updated,
                    withdrawal: Some(
                        TreasuryWithdrawal { treasury: t, to: p.recipient, amount: p.amount },
                    ),
                    event: ProposalExecutedEvent { proposal_id, passed: true },
                },
            ),
        }
    } else {
        Ok(
            Execution {
                proposal: updated,
                withdrawal: None,
                event: ProposalExecutedEvent { proposal_id, passed: false },
            },
        )
    }
}

/// The stored proposal, or why there is none.
pub fn read_proposal(stored: Option<&Proposal>) -> (r: Result<Proposal, ProposalsError>)
    ensures
        r == (match found(stored) {
            Some(p) => Ok(p),
            None => Err(ProposalsError::ProposalNotFound),
        }),
{
    match stored {
        Some(p) => Ok(p.duplicate()),
        None => Err(ProposalsError::ProposalNotFound),
    }
}

} // verus!
