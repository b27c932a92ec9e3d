use group_treasury::{
    decide_execution, decide_vote, AccountId, AddressKind, GroupTreasuryContract, MockToken,
    MockTreasury, Proposal, ProposalsConfig, ProposalsContract, ProposalsError, ProposalsEvent,
};

fn account(n: u8) -> AccountId {
    AccountId::new(AddressKind::Account, [n; 32])
}

fn contract(n: u8) -> AccountId {
    AccountId::new(AddressKind::Contract, [n; 32])
}

fn check<T>(r: Result<T, ProposalsError>) -> T {
    match r {
        Ok(v) => v,
        Err(e) => panic!("{}", e.message()),
    }
}

/// The proposals contract, the treasury it calls, and the ledger time.
struct World {
    client: ProposalsContract,
    treasury: MockTreasury,
    now: u64,
    next_address: u8,
}

impl World {
    fn generate(&mut self) -> AccountId {
        self.next_address += 1;
        account(self.next_address)
    }

    fn execute_proposal(&mut self, id: u32) {
        if let Some(w) = check(self.client.execute_proposal(id, self.now, true)) {
            self.treasury.withdraw(w.to, w.amount);
        }
    }

    fn cast_vote(&mut self, voter: AccountId, id: u32, approve: bool) {
        check(self.client.cast_vote(voter, id, approve, self.now));
    }
}

fn setup() -> (World, AccountId, AccountId, AccountId) {
    let admin = account(1);
    let treasury_id = contract(2);
    let mut client = ProposalsContract::new();
    check(client.initialize(admin, treasury_id));
    let world = World { client, treasury: MockTreasury::new(), now: 0, next_address: 100 };
    let proposer = account(3);
    let recipient = account(4);
    (world, treasury_id, proposer, recipient)
}

fn make_proposal(world: &mut World, proposer: AccountId, recipient: AccountId, duration_secs: u64) -> u32 {
    check(world.client.create_proposal(
        proposer,
        String::from("Fund the project"),
        1_000,
        recipient,
        duration_secs,
        world.now,
    ))
}

#[test]
fn test_test_initialize() {
    let (world, treasury_id, _proposer, _recipient) = setup();
    // Initialisation does not fail and the contract is usable.
    let _ = &world.client;
    let _ = treasury_id;
}

#[test]
#[should_panic(expected = "already initialized")]
fn test_test_double_initialize_panics() {
    let (mut world, treasury_id, _proposer, _recipient) = setup();
    let admin = world.generate();
    check(world.client.initialize(admin, treasury_id));
}

#[test]
fn test_create_proposal_returns_id() {
    let (mut world, _treasury_id, proposer, recipient) = setup();
    let id0 = make_proposal(&mut world, proposer, recipient, 3600);
    let id1 = make_proposal(&mut world, proposer, recipient, 3600);
    assert_eq!(id0, 0);
    assert_eq!(id1, 1);
}

#[test]
fn test_approve_vote_increments_yes() {
    let (mut world, _treasury_id, proposer, recipient) = setup();
    let id = make_proposal(&mut world, proposer, recipient, 3600);
    let voter = world.generate();
    world.cast_vote(voter, id, true);
    let p = check(world.client.get_proposal(id));
    assert_eq!(p.yes_votes, 1);
    assert_eq!(p.no_votes, 0);
}

#[test]
fn test_reject_vote_increments_no() {
    let (mut world, _treasury_id, proposer, recipient) = setup();
    let id = make_proposal(&mut world, proposer, recipient, 3600);
    let voter = world.generate();
    world.cast_vote(voter, id, false);
    let p = check(world.client.get_proposal(id));
    assert_eq!(p.yes_votes, 0);
    assert_eq!(p.no_votes, 1);
}

#[test]
#[should_panic(expected = "already voted")]
fn test_double_vote_panics() {
    let (mut world, _treasury_id, proposer, recipient) = setup();
    let id = make_proposal(&mut world, proposer, recipient, 3600);
    let voter = world.generate();
    world.cast_vote(voter, id, true);
    world.cast_vote(voter, id, true);
}

#[test]
#[should_panic(expected = "voting period has ended")]
fn test_vote_after_expiry_panics() {
    let (mut world, _treasury_id, proposer, recipient) = setup();
    let id = make_proposal(&mut world, proposer, recipient, 1);
    world.now += 10;
    let voter = world.generate();
    world.cast_vote(voter, id, true);
}

#[test]
fn test_execute_passed_proposal_triggers_treasury_withdraw() {
    let (mut world, _treasury_id, proposer, recipient) = setup();
    let id = make_proposal(&mut world, proposer, recipient, 1);
    let voter_a = world.generate();
    let voter_b = world.generate();
    world.cast_vote(voter_a, id, true);
    world.cast_vote(voter_b, id, true);
    world.now += 10;
    world.execute_proposal(id);

    let withdrawals = world.treasury.get_withdrawals();
    assert_eq!(withdrawals.len(), 1);
    assert_eq!(withdrawals[0].amount, 1_000);

    let p = check(world.client.get_proposal(id));
    assert!(p.executed);
}

#[test]
fn test_execute_failed_proposal_no_treasury_call() {
    let (mut world, _treasury_id, proposer, recipient) = setup();
    let id = make_proposal(&mut world, proposer, recipient, 1);
    let v1 = world.generate();
    let v2 = world.generate();
    let v3 = world.generate();
    world.cast_vote(v1, id, false);
    world.cast_vote(v2, id, false);
    world.cast_vote(v3, id, true);
    world.now += 10;
    world.execute_proposal(id);

    assert_eq!(world.treasury.get_withdrawals().len(), 0);
    let p = check(world.client.get_proposal(id));
    assert!(p.executed);
}

#[test]
#[should_panic(expected = "voting period not yet ended")]
fn test_execute_before_expiry_panics() {
    let (mut world, _treasury_id, proposer, recipient) = setup();
    let id = make_proposal(&mut world, proposer, recipient, 3600);
    world.execute_proposal(id);
}

#[test]
#[should_panic(expected = "proposal already executed")]
fn test_double_execute_panics() {
    let (mut world, _treasury_id, proposer, recipient) = setup();
    let id = make_proposal(&mut world, proposer, recipient, 1);
    world.now += 10;
    world.execute_proposal(id);
    world.execute_proposal(id);
}

#[test]
fn test_tied_vote_does_not_pass() {
    let (mut world, _treasury_id, proposer, recipient) = setup();
    let id = make_proposal(&mut world, proposer, recipient, 1);
    let v1 = world.generate();
    let v2 = world.generate();
    world.cast_vote(v1, id, true);
    world.cast_vote(v2, id, false);
    world.now += 10;
    world.execute_proposal(id);
    assert_eq!(world.treasury.get_withdrawals().len(), 0);
}

#[test]
fn test_multiple_voters_tally() {
    let (mut world, _treasury_id, proposer, recipient) = setup();
    let id = make_proposal(&mut world, proposer, recipient, 1);
    for _ in 0..3 {
        let v = world.generate();
        world.cast_vote(v, id, true);
    }
    for _ in 0..2 {
        let v = world.generate();
        world.cast_vote(v, id, false);
    }
    let p = check(world.client.get_proposal(id));
    assert_eq!(p.yes_votes, 3);
    assert_eq!(p.no_votes, 2);
    world.now += 10;
    world.execute_proposal(id);
    assert_eq!(world.treasury.get_withdrawals().len(), 1);
}

#[test]
fn create_proposal_refuses_bad_inputs() {
    let (mut world, _treasury_id, proposer, recipient) = setup();
    let d = || String::from("x");
    assert_eq!(
        world.client.create_proposal(proposer, d(), 0, recipient, 10, 0).err(),
        Some(ProposalsError::AmountNotPositive)
    );
    assert_eq!(
        world.client.create_proposal(proposer, d(), 5, recipient, 0, 0).err(),
        Some(ProposalsError::DurationNotPositive)
    );
    assert_eq!(
        world.client.create_proposal(proposer, d(), 5, recipient, 2, u64::MAX - 1).err(),
        Some(ProposalsError::Overflow)
    );
    // Refused calls hand out no id.
    assert_eq!(make_proposal(&mut world, proposer, recipient, 10), 0);
}

#[test]
fn new_proposal_record() {
    let (mut world, _treasury_id, proposer, recipient) = setup();
    world.now = 500;
    let id = make_proposal(&mut world, proposer, recipient, 60);
    let p = world.client.get_proposal(id).unwrap();
    assert!(p.proposer.same_as(&proposer));
    assert!(p.recipient.same_as(&recipient));
    assert_eq!(p.description, "Fund the project");
    assert_eq!(p.amount, 1_000);
    assert_eq!(p.end_time, 560);
    assert_eq!((p.yes_votes, p.no_votes, p.executed), (0, 0, false));
}

#[test]
fn missing_proposal_is_not_found() {
    let (mut world, _treasury_id, _proposer, _recipient) = setup();
    assert_eq!(world.client.get_proposal(7).err(), Some(ProposalsError::ProposalNotFound));
    assert_eq!(world.client.cast_vote(account(9), 7, true, 0).err(), Some(ProposalsError::ProposalNotFound));
    assert_eq!(world.client.execute_proposal(7, 0, true).err(), Some(ProposalsError::ProposalNotFound));
}

#[test]
fn vote_exactly_at_end_is_too_late_and_execution_then_allowed() {
    let (mut world, _treasury_id, proposer, recipient) = setup();
    let id = make_proposal(&mut world, proposer, recipient, 5);
    assert_eq!(world.client.cast_vote(account(9), id, true, 5).err(), Some(ProposalsError::VotingEnded));
    assert_eq!(world.client.execute_proposal(id, 4, true).err(), Some(ProposalsError::VotingNotEnded));
    assert_eq!(world.client.execute_proposal(id, 5, true).unwrap().is_none(), true);
    assert_eq!(world.client.cast_vote(account(9), id, true, 6).err(), Some(ProposalsError::VotingEnded));
}

#[test]
fn refused_second_vote_leaves_tally() {
    let (mut world, _treasury_id, proposer, recipient) = setup();
    let id = make_proposal(&mut world, proposer, recipient, 100);
    world.cast_vote(account(9), id, true);
    assert_eq!(world.client.cast_vote(account(9), id, false, 1).err(), Some(ProposalsError::AlreadyVoted));
    let p = world.client.get_proposal(id).unwrap();
    assert_eq!((p.yes_votes, p.no_votes), (1, 0));
    // The same voter may still vote on another proposal.
    let other = make_proposal(&mut world, proposer, recipient, 100);
    world.cast_vote(account(9), other, false);
    assert_eq!(world.client.get_proposal(other).unwrap().no_votes, 1);
}

#[test]
fn withdrawal_names_treasury_recipient_and_amount() {
    let (mut world, treasury_id, proposer, recipient) = setup();
    let id = make_proposal(&mut world, proposer, recipient, 1);
    world.cast_vote(account(9), id, true);
    let w = world.client.execute_proposal(id, 1, true).unwrap().unwrap();
    assert!(w.treasury.same_as(&treasury_id));
    assert!(w.to.same_as(&recipient));
    assert_eq!(w.amount, 1_000);
}

#[test]
fn passed_proposal_without_treasury_is_refused() {
    let mut client = ProposalsContract::new();
    let id = client.create_proposal(account(3), String::from("x"), 10, account(4), 1, 0).unwrap();
    assert_eq!(id, 0);
    client.cast_vote(account(9), id, true, 0).unwrap();
    assert_eq!(client.execute_proposal(id, 1, true).err(), Some(ProposalsError::NotInitialized));
    // The refusal leaves the proposal unexecuted.
    assert!(!client.get_proposal(id).unwrap().executed);
}

#[test]
fn initialize_resets_the_id_counter() {
    let mut client = ProposalsContract::new();
    assert_eq!(client.create_proposal(account(3), String::from("a"), 10, account(4), 1, 0), Ok(0));
    client.initialize(account(1), contract(2)).unwrap();
    assert_eq!(client.create_proposal(account(3), String::from("b"), 20, account(4), 1, 0), Ok(0));
    assert_eq!(client.get_proposal(0).unwrap().amount, 20);
}

#[test]
fn decisions_on_loaded_entries() {
    let mut config = ProposalsConfig::new();
    config.initialize(account(1), contract(2)).unwrap();
    assert_eq!(config.initialize(account(1), contract(2)), Err(ProposalsError::AlreadyInitialized));
    let created = config.open_proposal(account(3), String::from("d"), 10, account(4), 5, 100).unwrap();
    assert_eq!(created.id, 0);
    assert_eq!(config.next_id, Some(1));
    assert_eq!(created.event.id, 0);
    assert_eq!(created.event.amount, 10);
    let p: Proposal = created.proposal;
    let voted = decide_vote(Some(&p), false, 0, account(9), false, 104).unwrap();
    assert_eq!(voted.proposal.no_votes, 1);
    assert!(voted.event.voter.same_as(&account(9)));
    assert!(!voted.event.approve);
    assert_eq!(decide_vote(Some(&p), true, 0, account(9), true, 104).err(), Some(ProposalsError::AlreadyVoted));
    let done = decide_execution(Some(&voted.proposal), config.treasury, 0, 105).unwrap();
    assert!(done.proposal.executed);
    assert!(done.withdrawal.is_none());
    assert!(!done.event.passed);
    assert_eq!(done.event.proposal_id, 0);
}

#[test]
fn tally_overflow_is_refused() {
    let p = Proposal {
        proposer: account(3),
        description: String::from("x"),
        amount: 1,
        recipient: account(4),
        yes_votes: u32::MAX,
        no_votes: 0,
        end_time: 10,
        executed: false,
    };
    assert_eq!(decide_vote(Some(&p), false, 0, account(9), true, 0).err(), Some(ProposalsError::Overflow));
    assert_eq!(decide_vote(Some(&p), false, 0, account(9), false, 0).unwrap().proposal.no_votes, 1);
}

#[test]
fn id_counter_overflow_is_refused() {
    let mut config = ProposalsConfig { admin: None, treasury: None, next_id: Some(u32::MAX) };
    assert_eq!(
        config.open_proposal(account(3), String::from("x"), 1, account(4), 1, 0).err(),
        Some(ProposalsError::Overflow)
    );
    assert_eq!(config.next_id, Some(u32::MAX));
}

#[test]
fn proposals_error_messages() {
    assert_eq!(ProposalsError::AlreadyVoted.message(), "already voted");
    assert_eq!(ProposalsError::VotingEnded.message(), "voting period has ended");
    assert_eq!(ProposalsError::VotingNotEnded.message(), "voting period not yet ended");
    assert_eq!(ProposalsError::AlreadyExecuted.message(), "proposal already executed");
    assert_eq!(ProposalsError::ProposalNotFound.message(), "proposal not found");
    assert_eq!(ProposalsError::DurationNotPositive.message(), "duration must be positive");
}

#[test]
fn executed_withdrawal_is_paid_by_treasury() {
    let token_id = contract(10);
    let treasury_id = contract(2);
    let proposals_id = contract(5);
    let member = account(20);
    let recipient = account(4);

    let mut token = MockToken::new();
    token.mint(member, 5_000).unwrap();
    let mut treasury = GroupTreasuryContract::new(treasury_id);
    treasury.initialize(account(1), token_id, vec![member]).unwrap();
    treasury.set_proposals_contract(proposals_id).unwrap();
    let d = treasury.deposit(member, 3_000).unwrap();
    token.transfer(d.transfer.from, d.transfer.to, d.transfer.amount).unwrap();

    let mut client = ProposalsContract::new();
    client.initialize(account(1), treasury_id).unwrap();
    let id = client.create_proposal(account(3), String::from("pay"), 1_200, recipient, 10, 0).unwrap();
    client.cast_vote(member, id, true, 1).unwrap();
    let w = client.execute_proposal(id, 10, true).unwrap().unwrap();

    assert!(w.treasury.same_as(&treasury_id));
    let plan = treasury.withdraw(w.to, w.amount).unwrap();
    assert!(plan.authorizer.same_as(&proposals_id));
    token.transfer(plan.transfer.from, plan.transfer.to, plan.transfer.amount).unwrap();
    assert_eq!(token.balance(treasury_id), 1_800);
    assert_eq!(token.balance(recipient), 1_200);
    assert_eq!(token.balance(member), 2_000);
}

#[test]
fn calls_publish_their_events_in_order() {
    let (mut world, _treasury_id, proposer, recipient) = setup();
    assert_eq!(world.client.get_events().len(), 0);
    let id = make_proposal(&mut world, proposer, recipient, 5);
    let voter = world.generate();
    world.cast_vote(voter, id, true);
    // A refused call publishes nothing.
    assert!(world.client.cast_vote(voter, id, true, 0).is_err());
    world.now += 5;
    world.execute_proposal(id);
    let events = world.client.get_events();
    assert_eq!(events.len(), 3);
    match events[0] {
        ProposalsEvent::Created(e) => {
            assert_eq!(e.id, id);
            assert!(e.proposer.same_as(&proposer));
            assert_eq!(e.amount, 1_000);
        },
        _ => panic!("expected a creation event"),
    }
    match events[1] {
        ProposalsEvent::VoteCast(e) => {
            assert_eq!(e.proposal_id, id);
            assert!(e.voter.same_as(&voter));
            assert!(e.approve);
        },
        _ => panic!("expected a vote event"),
    }
    match events[2] {
        ProposalsEvent::Executed(e) => {
            assert_eq!(e.proposal_id, id);
            assert!(e.passed);
        },
        _ => panic!("expected an execution event"),
    }
}

#[test]
fn decisions_name_who_must_authorise() {
    let mut config = ProposalsConfig::new();
    let created = config.open_proposal(account(3), String::from("d"), 10, account(4), 5, 0).unwrap();
    assert!(created.authorizer.same_as(&account(3)));
    let voted = decide_vote(Some(&created.proposal), false, 0, account(9), true, 1).unwrap();
    assert!(voted.authorizer.same_as(&account(9)));
}

#[test]
fn deposit_then_withdraw_restores_balances() {
    let treasury_id = contract(2);
    let member = account(20);
    let mut token = MockToken::new();
    token.mint(member, 700).unwrap();
    let mut treasury = GroupTreasuryContract::new(treasury_id);
    treasury.initialize(account(1), contract(10), vec![member]).unwrap();
    treasury.set_proposals_contract(contract(5)).unwrap();
    let d = treasury.deposit(member, 300).unwrap();
    token.transfer(d.transfer.from, d.transfer.to, d.transfer.amount).unwrap();
    assert_eq!(token.balance(treasury_id), 300);
    let w = treasury.withdraw(member, 300).unwrap();
    token.transfer(w.transfer.from, w.transfer.to, w.transfer.amount).unwrap();
    assert_eq!(token.balance(treasury_id), 0);
    assert_eq!(token.balance(member), 700);
}

#[test]
fn failed_withdrawal_leaves_proposal_open() {
    let (mut world, _treasury_id, proposer, recipient) = setup();
    let id = make_proposal(&mut world, proposer, recipient, 1);
    world.cast_vote(account(9), id, true);
    assert_eq!(world.client.execute_proposal(id, 5, false).err(), Some(ProposalsError::WithdrawalFailed));
    assert!(!check(world.client.get_proposal(id)).executed);
    assert_eq!(world.client.get_events().len(), 2);
    // The treasury answers only for passing proposals.
    let rejected = make_proposal(&mut world, proposer, recipient, 1);
    assert!(world.client.execute_proposal(rejected, 5, false).unwrap().is_none());
    // A later execution that the treasury pays succeeds.
    assert!(world.client.execute_proposal(id, 6, true).unwrap().is_some());
    assert!(check(world.client.get_proposal(id)).executed);
}
