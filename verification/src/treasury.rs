use vstd::prelude::*;

use crate::account::{list_contains, AccountId};
use crate::storage::{DepositEvent, MemberList, WithdrawEvent};

verus! {

/// Why a treasury call is refused.
#[derive(Clone, Copy, Debug, PartialEq, Eq, Structural)]
pub enum TreasuryError {
    /// `initialize` was called a second time.
    AlreadyInitialized,
    /// The admin or the token has not been set.
    NotInitialized,
    /// A deposit or withdrawal of zero or fewer tokens.
    AmountNotPositive,
    /// A withdrawal before any proposals contract was authorised.
    ProposalsContractNotSet,
}

impl TreasuryError {
    /// The message with which the contract aborts.
    pub fn message(&self) -> (r: &'static str)
        ensures
            *self == TreasuryError::AlreadyInitialized ==> r@ == "already initialized"@,
            *self == TreasuryError::NotInitialized ==> r@ == "not initialized"@,
            *self == TreasuryError::AmountNotPositive ==> r@ == "amount must be positive"@,
            *self == TreasuryError::ProposalsContractNotSet ==> r@
                == "proposals contract not set"@,
    {
        match self {
            TreasuryError::AlreadyInitialized => "already initialized",
            TreasuryError::NotInitialized => "not initialized",
            TreasuryError::AmountNotPositive => "amount must be positive",
            TreasuryError::ProposalsContractNotSet => "proposals contract not set",
        }
    }
}

/// A transfer that the treasury asks a token contract to make.
#[derive(Clone, Copy, Debug)]
pub struct TokenTransfer {
    /// The token contract that moves the tokens.
    pub token: AccountId,
    pub from: AccountId,
    pub to: AccountId,
    pub amount: i128,
}

/// What an accepted deposit asks of the host.
#[derive(Clone, Copy, Debug)]
pub struct DepositPlan {
    /// Whose authorisation the deposit needs.
    pub authorizer: AccountId,
    pub transfer: TokenTransfer,
    pub event: DepositEvent,
}

/// What an accepted withdrawal asks of the host.
#[derive(Clone, Copy, Debug)]
pub struct WithdrawPlan {
    /// Whose authorisation the withdrawal needs.
    pub authorizer: AccountId,
    pub transfer: TokenTransfer,
    pub event: WithdrawEvent,
}

/// Which token contract to ask for whose balance.
#[derive(Clone, Copy, Debug)]
pub struct BalanceQuery {
    pub token: AccountId,
    pub holder: AccountId,
}

/// The state of a group treasury: its own address and what it keeps in storage.
pub struct GroupTreasuryContract {
    /// The treasury's own address, which holds the deposited tokens.
    pub address: AccountId,
    pub admin: Option<AccountId>,
    pub token_contract: Option<AccountId>,
    pub members: Option<MemberList>,
    pub proposals_contract: Option<AccountId>,
}

/// The state of a group treasury as a mathematical value.
pub struct TreasuryState {
    pub address: AccountId,
    pub admin: Option<AccountId>,
    pub token_contract: Option<AccountId>,
    pub members: Option<Seq<AccountId>>,
    pub proposals_contract: Option<AccountId>,
}

/// The members a treasury state holds; none before initialisation.
pub open spec fn member_seq(members: Option<Seq<AccountId>>) -> Seq<AccountId> {
    match members {
        Some(list) => list,
        None => Seq::empty(),
    }
}

/// The state after `initialize`, or why it is refused: only a treasury with no
/// admin yet accepts it.
pub open spec fn treasury_initialize_step(
    s: TreasuryState,
    admin: AccountId,
    token_contract: AccountId,
    members: Seq<AccountId>,
) -> Result<TreasuryState, TreasuryError> {
    if s.admin is Some {
        Err(TreasuryError::AlreadyInitialized)
    } else {
        Ok(
            TreasuryState {
                admin: Some(admin),
                token_contract: Some(token_contract),
                members: Some(members),
                ..s
            },
        )
    }
}

/// The state after `set_proposals_contract` and the admin whose authorisation
/// it needs, or why it is refused.
pub open spec fn set_proposals_step(s: TreasuryState, proposals_contract: AccountId) -> Result<
    (TreasuryState, AccountId),
    TreasuryError,
> {
    match s.admin {
        None => Err(TreasuryError::NotInitialized),
        Some(admin) => Ok(
            (TreasuryState { proposals_contract: Some(proposals_contract), ..s }, admin),
        ),
    }
}

/// What `deposit` answers: refused for a non-positive amount, then for a
/// missing token; otherwise a transfer of `amount` from `from` to the treasury,
/// authorised by `from`.
pub open spec fn deposit_outcome(s: TreasuryState, from: AccountId, amount: i128) -> Result<
    DepositPlan,
    TreasuryError,
> {
    if amount <= 0 {
        Err(TreasuryError::AmountNotPositive)
    } else {
        match s.token_contract {
            None => Err(TreasuryError::NotInitialized),
            Some(token) => Ok(
                DepositPlan {
                    authorizer: from,
                    transfer: TokenTransfer { token, from, to: s.address, amount },
                    event: DepositEvent { from, amount },
                },
            ),
        }
    }
}

/// What `withdraw` answers: refused for a non-positive amount, then when no
/// proposals contract is authorised, then for a missing token; otherwise a
/// transfer of `amount` from the treasury to `to`, authorised by the
/// proposals contract.
pub open spec fn withdraw_outcome(s: TreasuryState, to: AccountId, amount: i128) -> Result<
    WithdrawPlan,
    TreasuryError,
> {
    if amount <= 0 {
        Err(TreasuryError::AmountNotPositive)
    } else {
        match s.proposals_contract {
            None => Err(TreasuryError::ProposalsContractNotSet),
            Some(proposals) => match s.token_contract {
                None => Err(TreasuryError::NotInitialized),
                Some(token) => Ok(
                    WithdrawPlan {
                        authorizer: proposals,
                        transfer: TokenTransfer { token, from: s.address, to, amount },
                        event: WithdrawEvent { to, amount },
                    },
                ),
            },
        }
    }
}

impl View for GroupTreasuryContract {
    type V = TreasuryState;

    open spec fn view(&self) -> TreasuryState {
        TreasuryState {
            address: self.address,
            admin: self.admin,
            token_contract: self.token_contract,
            members: match self.members {
                Some(list) => Some(list@),
                None => None,
            },
            proposals_contract: self.proposals_contract,
        }
    }
}

impl GroupTreasuryContract {
    /// A treasury at `address` with empty storage.
    pub fn new(address: AccountId) -> (r: GroupTreasuryContract)
        ensures
            r@ == (TreasuryState {
                address,
                admin: None,
                token_contract: None,
                members: None,
                proposals_contract: None,
            }),
    {
        GroupTreasuryContract {
            address,
            admin: None,
            token_contract: None,
            members: None,
            proposals_contract: None,
        }
    }

    /// Records the admin, the token and the members, once.
    pub fn initialize(&mut self, admin: AccountId, token_contract: AccountId, members: MemberList) -> (r:
        Result<(), TreasuryError>)
        ensures
            match treasury_initialize_step(old(self)@, admin, token_contract, members@) {
                Ok(s) => r is Ok && final(self)@ == s,
                Err(e) => r == Err::<(), TreasuryError>(e) && final(self)@ == old(self)@,
            },
    {
        if self.admin.is_some() {
            return Err(TreasuryError::AlreadyInitialized);
        }
        self.admin = Some(admin);
        self.token_contract = Some(token_contract);
        self.members = Some(members);
        Ok(())
    }

    /// Authorises `proposals_contract` to withdraw; returns the admin, whose
    /// authorisation the change needs.
    pub fn set_proposals_contract(&mut self, proposals_contract: AccountId) -> (r: Result<
        AccountId,
        TreasuryError,
    >)
        ensures
            match set_proposals_step(old(self)@, proposals_contract) {
                Ok((s, admin)) => r == Ok::<AccountId, TreasuryError>(admin) && final(self)@ == s,
                Err(e) => r == Err::<AccountId, TreasuryError>(e) && final(self)@ == old(self)@,
            },
    {
        match self.admin {
            None => Err(TreasuryError::NotInitialized),
            Some(admin) => {
                self.proposals_contract = Some(proposals_contract);
                Ok(admin)
            },
        }
    }

    /// Whose authorisation a deposit asks for before it reads the token:
    /// the depositor's, once the amount is positive.
    pub fn deposit_authorizer(&self, from: AccountId, amount: i128) -> (r: Option<AccountId>)
        ensures
            r == (if amount > 0 {
                Some(from)
            } else {
                None
            }),
            deposit_outcome(self@, from, amount) matches Ok(plan) ==> r == Some(plan.authorizer),
    {
        if amount > 0 {
            Some(from)
        } else {
            None
        }
    }

    /// Whose authorisation a withdrawal asks for before it reads the token:
    /// the authorised proposals contract's, once the amount is positive.
    pub fn withdraw_authorizer(&self, amount: i128) -> (r: Option<AccountId>)
        ensures
            r == (if amount > 0 {
                self.proposals_contract
            } else {
                None
            }),
            forall|to: AccountId| #[trigger]
                withdraw_outcome(self@, to, amount) is Ok ==> r == Some(
                    withdraw_outcome(self@, to, amount)->Ok_0.authorizer,
                ),
    {
        if amount > 0 {
            self.proposals_contract
        } else {
            None
        }
    }

    /// Plans moving `amount` tokens from `from` into the treasury.
    pub fn deposit(&self, from: AccountId, amount: i128) -> (r: Result<DepositPlan, TreasuryError>)
        ensures
            r == deposit_outcome(self@, from, amount),
    {
        if amount <= 0 {
            return Err(TreasuryError::AmountNotPositive);
        }
        match self.token_contract {
            None => Err(TreasuryError::NotInitialized),
            Some(token) => Ok(
                DepositPlan {
                    authorizer: from,
                    transfer: TokenTransfer { token, from, to: self.address, amount },
                    event: DepositEvent { from, amount },
                },
            ),
        }
    }

    /// Plans moving `amount` tokens out of the treasury to `to`; only the
    /// authorised proposals contract may do so.
    pub fn withdraw(&self, to: AccountId, amount: i128) -> (r: Result<WithdrawPlan, TreasuryError>)
        ensures
            r == withdraw_outcome(self@, to, amount),
    {
        if amount <= 0 {
            return Err(TreasuryError::AmountNotPositive);
        }
        let proposals = match self.proposals_contract {
            None => {
                return Err(TreasuryError::ProposalsContractNotSet);
            },
            Some(p) => p,
        };
        match self.token_contract {
            None => Err(TreasuryError::NotInitialized),
            Some(token) => Ok(
                WithdrawPlan {
                    authorizer: proposals,
                    transfer: TokenTransfer { token, from: self.address, to, amount },
                    event: WithdrawEvent { to, amount },
                },
            ),
        }
    }

    /// Which token contract holds the treasury's balance, and under which address.
    pub fn balance(&self) -> (r: Result<BalanceQuery, TreasuryError>)
        ensures
            r == (match self.token_contract {
                None => Err(TreasuryError::NotInitialized),
                Some(token) => Ok(BalanceQuery { token, holder: self.address }),
            }),
    {
        match self.token_contract {
            None => Err(TreasuryError::NotInitialized),
            Some(token) => Ok(BalanceQuery { token, holder: self.address }),
        }
    }

    /// Whether `addr` is one of the group's members.
    pub fn is_member(&self, addr: AccountId) -> (r: bool)
        ensures
            r == member_seq(self@.members).contains(addr),
    {
        match &self.members {
            None => false,
            Some(list) => list_contains(list, &addr),
        }
    }

    /// The group's members; none before initialisation.
    pub fn get_members(&self) -> (r: MemberList)
        ensures
            r@ == member_seq(self@.members),
    {
        let mut out: MemberList = Vec::new();
        match &self.members {
            None => {},
            Some(list) => {
                let mut i: usize = 0;
                while i < list.len()
                    invariant
                        i <= list.len(),
                        out@ == list@.subrange(0, i as int),
                    decreases list.len() - i,
                {
                    out.push(list[i]);
                    i = i + 1;
                }
                assert(list@.subrange(0, list.len() as int) =~= list@);
            },
        }
        out
    }
}

} // verus!
