use group_treasury::{
    AccountId, AddressKind, GroupTreasuryContract, MockToken, MockTokenError, TreasuryError,
};

fn account(n: u8) -> AccountId {
    AccountId::new(AddressKind::Account, [n; 32])
}

fn contract(n: u8) -> AccountId {
    AccountId::new(AddressKind::Contract, [n; 32])
}

fn check<T>(r: Result<T, TreasuryError>) -> T {
    match r {
        Ok(v) => v,
        Err(e) => panic!("{}", e.message()),
    }
}

fn check_token<T>(r: Result<T, MockTokenError>) -> T {
    match r {
        Ok(v) => v,
        Err(e) => panic!("{}", e.message()),
    }
}

/// The treasury together with the token it holds.
struct World {
    treasury: GroupTreasuryContract,
    token: MockToken,
}

impl World {
    fn deposit(&mut self, from: AccountId, amount: i128) {
        let plan = check(self.treasury.deposit(from, amount));
        assert!(plan.authorizer.same_as(&from));
        check_token(self.token.transfer(plan.transfer.from, plan.transfer.to, plan.transfer.amount));
    }

    fn withdraw(&mut self, to: AccountId, amount: i128) {
        let plan = check(self.treasury.withdraw(to, amount));
        check_token(self.token.transfer(plan.transfer.from, plan.transfer.to, plan.transfer.amount));
    }

    fn balance(&self) -> i128 {
        let q = check(self.treasury.balance());
        self.token.balance(q.holder)
    }
}

fn setup() -> (World, AccountId, AccountId, AccountId, AccountId) {
    let admin = account(1);
    let member1 = account(2);
    let member2 = account(3);
    let token_id = contract(10);

    let mut token = MockToken::new();
    check_token(token.mint(member1, 1_000_000));
    check_token(token.mint(member2, 500_000));

    let members = vec![member1, member2];

    let mut treasury = GroupTreasuryContract::new(contract(20));
    check(treasury.initialize(admin, token_id, members));

    (World { treasury, token }, token_id, admin, member1, member2)
}

#[test]
fn test_initialize() {
    let (world, _token_id, _admin, member1, member2) = setup();
    assert!(world.treasury.is_member(member1));
    assert!(world.treasury.is_member(member2));
    assert!(!world.treasury.is_member(account(99)));
}

#[test]
#[should_panic(expected = "already initialized")]
fn test_double_initialize_panics() {
    let (mut world, token_id, admin, member1, _member2) = setup();
    let members = vec![member1];
    check(world.treasury.initialize(admin, token_id, members));
}

#[test]
fn test_deposit_and_balance() {
    let (mut world, _token_id, _admin, member1, _member2) = setup();
    assert_eq!(world.balance(), 0);
    world.deposit(member1, 300_000);
    assert_eq!(world.balance(), 300_000);
    assert_eq!(world.token.balance(member1), 700_000);
}

#[test]
#[should_panic(expected = "amount must be positive")]
fn test_deposit_zero_panics() {
    let (mut world, _token_id, _admin, member1, _member2) = setup();
    world.deposit(member1, 0);
}

#[test]
fn test_withdraw_by_proposals_contract() {
    let (mut world, _token_id, admin, member1, _member2) = setup();
    world.deposit(member1, 500_000);

    let proposals_contract = contract(30);
    let approver = check(world.treasury.set_proposals_contract(proposals_contract));
    assert!(approver.same_as(&admin));

    let recipient = account(40);
    world.withdraw(recipient, 200_000);

    assert_eq!(world.balance(), 300_000);
    assert_eq!(world.token.balance(recipient), 200_000);
}

#[test]
#[should_panic(expected = "proposals contract not set")]
fn test_withdraw_without_proposals_contract_panics() {
    let (mut world, _token_id, _admin, member1, _member2) = setup();
    world.deposit(member1, 100_000);
    let recipient = account(40);
    world.withdraw(recipient, 50_000);
}

#[test]
fn test_get_members() {
    let (world, _token_id, _admin, member1, member2) = setup();
    let members = world.treasury.get_members();
    assert_eq!(members.len(), 2);
    assert!(members.iter().any(|m| m.same_as(&member1)));
    assert!(members.iter().any(|m| m.same_as(&member2)));
}

#[test]
fn treasury_before_initialize_is_empty_and_refuses() {
    let t = GroupTreasuryContract::new(contract(20));
    assert!(!t.is_member(account(2)));
    assert_eq!(t.get_members().len(), 0);
    assert_eq!(t.balance().err(), Some(TreasuryError::NotInitialized));
    assert_eq!(t.deposit(account(2), 5).err(), Some(TreasuryError::NotInitialized));
    assert_eq!(t.deposit(account(2), -5).err(), Some(TreasuryError::AmountNotPositive));
    assert_eq!(t.withdraw(account(2), 5).err(), Some(TreasuryError::ProposalsContractNotSet));
    assert_eq!(t.withdraw(account(2), 0).err(), Some(TreasuryError::AmountNotPositive));
}

#[test]
fn set_proposals_contract_needs_initialization() {
    let mut t = GroupTreasuryContract::new(contract(20));
    assert_eq!(t.set_proposals_contract(contract(30)).err(), Some(TreasuryError::NotInitialized));
    assert!(t.proposals_contract.is_none());
}

#[test]
fn second_initialize_keeps_first_members() {
    let (mut world, token_id, admin, member1, member2) = setup();
    let r = world.treasury.initialize(admin, token_id, vec![account(50)]);
    assert_eq!(r, Err(TreasuryError::AlreadyInitialized));
    assert!(world.treasury.is_member(member1));
    assert!(world.treasury.is_member(member2));
    assert!(!world.treasury.is_member(account(50)));
}

#[test]
fn deposit_plan_names_token_and_treasury() {
    let (world, token_id, _admin, member1, _member2) = setup();
    let plan = world.treasury.deposit(member1, 7).unwrap();
    assert!(plan.transfer.token.same_as(&token_id));
    assert!(plan.transfer.from.same_as(&member1));
    assert!(plan.transfer.to.same_as(&contract(20)));
    assert_eq!(plan.transfer.amount, 7);
    assert!(plan.event.from.same_as(&member1));
    assert_eq!(plan.event.amount, 7);
}

#[test]
fn withdraw_plan_is_authorised_by_proposals_contract() {
    let (mut world, token_id, _admin, _member1, _member2) = setup();
    check(world.treasury.set_proposals_contract(contract(30)));
    let plan = world.treasury.withdraw(account(40), 9).unwrap();
    assert!(plan.authorizer.same_as(&contract(30)));
    assert!(plan.transfer.token.same_as(&token_id));
    assert!(plan.transfer.from.same_as(&contract(20)));
    assert!(plan.transfer.to.same_as(&account(40)));
    assert_eq!(plan.event.amount, 9);
}

#[test]
fn withdraw_more_than_held_is_refused_by_token() {
    let (mut world, _token_id, _admin, member1, _member2) = setup();
    world.deposit(member1, 100);
    check(world.treasury.set_proposals_contract(contract(30)));
    let plan = world.treasury.withdraw(account(40), 101).unwrap();
    let r = world.token.transfer(plan.transfer.from, plan.transfer.to, plan.transfer.amount);
    assert_eq!(r.err(), Some(MockTokenError::InsufficientBalance));
    assert_eq!(world.balance(), 100);
}

#[test]
fn error_messages() {
    assert_eq!(TreasuryError::AlreadyInitialized.message(), "already initialized");
    assert_eq!(TreasuryError::NotInitialized.message(), "not initialized");
    assert_eq!(TreasuryError::AmountNotPositive.message(), "amount must be positive");
    assert_eq!(TreasuryError::ProposalsContractNotSet.message(), "proposals contract not set");
    assert_eq!(MockTokenError::InsufficientBalance.message(), "insufficient balance");
}

#[test]
fn token_transfer_conserves_and_self_transfer_is_neutral() {
    let mut token = MockToken::new();
    token.mint(account(1), 50).unwrap();
    token.mint(account(2), 20).unwrap();
    token.transfer(account(1), account(2), 30).unwrap();
    assert_eq!(token.balance(account(1)), 20);
    assert_eq!(token.balance(account(2)), 50);
    assert_eq!(token.balance(account(3)), 0);
    token.transfer(account(2), account(2), 50).unwrap();
    assert_eq!(token.balance(account(2)), 50);
    assert_eq!(token.transfer(account(3), account(1), 1).err(), Some(MockTokenError::InsufficientBalance));
}

#[test]
fn token_overflow_is_refused() {
    let mut token = MockToken::new();
    token.mint(account(1), i128::MAX).unwrap();
    assert_eq!(token.mint(account(1), 1).err(), Some(MockTokenError::Overflow));
    assert_eq!(token.balance(account(1)), i128::MAX);
    token.mint(account(2), 1).unwrap();
    assert_eq!(token.transfer(account(2), account(1), 1).err(), Some(MockTokenError::Overflow));
    assert_eq!(token.transfer(account(1), account(2), -1).err(), Some(MockTokenError::Overflow));
    assert_eq!(token.balance(account(2)), 1);
}

#[test]
fn account_identity_compares_kind_and_key() {
    assert!(account(1).same_as(&account(1)));
    assert!(!account(1).same_as(&account(2)));
    assert!(!account(1).same_as(&contract(1)));
}

#[test]
fn authorisation_asked_before_the_token_is_read() {
    let t = GroupTreasuryContract::new(contract(20));
    assert!(t.deposit_authorizer(account(2), 5).unwrap().same_as(&account(2)));
    assert!(t.deposit_authorizer(account(2), 0).is_none());
    assert!(t.withdraw_authorizer(5).is_none());
    let (mut world, _token_id, _admin, _member1, _member2) = setup();
    check(world.treasury.set_proposals_contract(contract(30)));
    assert!(world.treasury.withdraw_authorizer(5).unwrap().same_as(&contract(30)));
    assert!(world.treasury.withdraw_authorizer(-1).is_none());
}
