use vstd::prelude::*;

use crate::account::AccountId;

verus! {

/// The storage key of a balance in the mock token.
#[derive(Clone, Copy, Debug)]
pub enum Key {
    Balance(AccountId),
}

/// Why a mock token call is refused.
#[derive(Clone, Copy, Debug, PartialEq, Eq, Structural)]
pub enum MockTokenError {
    /// The sender holds fewer tokens than it sends.
    InsufficientBalance,
    /// A balance would leave the range of `i128`.
    Overflow,
}

impl MockTokenError {
    /// The message with which the token aborts.
    pub fn message(&self) -> (r: &'static str)
        ensures
            *self == MockTokenError::InsufficientBalance ==> r@ == "insufficient balance"@,
            *self == MockTokenError::Overflow ==> r@ == "arithmetic overflow"@,
    {
        match self {
            MockTokenError::InsufficientBalance => "insufficient balance",
            MockTokenError::Overflow => "arithmetic overflow",
        }
    }
}

/// One stored balance.
#[derive(Clone, Copy, Debug)]
pub struct BalanceEntry {
    pub key: Key,
    pub amount: i128,
}

/// A minimal token ledger: balances by holder, absent holders holding zero.
pub struct MockToken {
    entries: Vec<BalanceEntry>,
}

/// Whether `s` stores a balance for `who`.
pub open spec fn stores(s: Seq<BalanceEntry>, who: AccountId) -> bool {
    exists|i: int| 0 <= i < s.len() && #[trigger] s[i].key == Key::Balance(who)
}

/// The balance that `s` stores for `who`, zero where it stores none.
pub open spec fn stored_balance(s: Seq<BalanceEntry>, who: AccountId) -> i128 {
    if stores(s, who) {
        s[choose|i: int| 0 <= i < s.len() && #[trigger] s[i].key == Key::Balance(who)].amount
    } else {
        0
    }
}

/// No holder is stored twice.
pub open spec fn distinct_keys(s: Seq<BalanceEntry>) -> bool {
    forall|i: int, j: int| 0 <= i < j < s.len() ==> s[i].key != s[j].key
}

proof fn lemma_stored_at(s: Seq<BalanceEntry>, who: AccountId, j: int)
    requires
        distinct_keys(s),
        0 <= j < s.len(),
        s[j].key == Key::Balance(who),
    ensures
        stores(s, who),
        stored_balance(s, who) == s[j].amount,
{
    let k = choose|i: int| 0 <= i < s.len() && #[trigger] s[i].key == Key::Balance(who);
    if k < j {
        assert(s[k].key != s[j].key);
    } else if j < k {
        assert(s[j].key != s[k].key);
    }
}

/// Whether a transfer of `amount` from `from` to `to` is accepted: the sender
/// holds at least `amount`, and neither the debited nor the credited balance
/// leaves the range of `i128`.
pub open spec fn transfer_accepted(t: MockToken, from: AccountId, to: AccountId, amount: i128) -> bool {
    let debited = t.balance_of(from) - amount;
    let credited = (if to == from {
        debited
    } else {
        t.balance_of(to) as int
    }) + amount;
    t.balance_of(from) >= amount && debited <= i128::MAX && i128::MIN <= credited <= i128::MAX
}

/// `after` is `before` with `amount` debited from `from` and then credited to `to`.
pub open spec fn moved(before: MockToken, after: MockToken, from: AccountId, to: AccountId, amount: i128) -> bool {
    let debited = before.balance_of(from) - amount;
    let credited = (if to == from {
        debited
    } else {
        before.balance_of(to) as int
    }) + amount;
    forall|b: AccountId| #[trigger]
        after.balance_of(b) == if b == to {
            credited
        } else if b == from {
            debited
        } else {
            before.balance_of(b) as int
        }
}

impl MockToken {
    #[verifier::type_invariant]
    spec fn keys_distinct(&self) -> bool {
        distinct_keys(self.entries@)
    }

    /// The balance of `who`.
    pub closed spec fn balance_of(&self, who: AccountId) -> i128 {
        stored_balance(self.entries@, who)
    }

    /// A token in which nobody holds anything.
    pub fn new() -> (r: MockToken)
        ensures
            forall|who: AccountId| r.balance_of(who) == 0,
    {
        MockToken { entries: Vec::new() }
    }

    fn position(&self, who: &AccountId) -> (r: Option<usize>)
        ensures
            r matches Some(i) ==> i < self.entries@.len() && self.entries@[i as int].key
                == Key::Balance(*who),
            r is None ==> !stores(self.entries@, *who),
    {
        let mut i: usize = 0;
        while i < self.entries.len()
            invariant
                i <= self.entries@.len(),
                forall|j: int| 0 <= j < i ==> self.entries@[j].key != Key::Balance(*who),
            decreases self.entries@.len() - i,
        {
            let Key::Balance(holder) = self.entries[i].key;
            if holder.same_as(who) {
                return Some(i);
            }
            i = i + 1;
        }
        None
    }

    /// The balance of `id`.
    pub fn balance(&self, id: AccountId) -> (r: i128)
        ensures
            r == self.balance_of(id),
    {
        proof {
            use_type_invariant(self);
        }
        match self.position(&id) {
            Some(i) => {
                proof {
                    lemma_stored_at(self.entries@, id, i as int);
                }
                self.entries[i].amount
            },
            None => 0,
        }
    }

    fn store(&mut self, who: AccountId, amount: i128)
        ensures
            forall|b: AccountId| #[trigger]
                final(self).balance_of(b) == if b == who {
                    amount
                } else {
                    old(self).balance_of(b)
                },
    {
        proof {
            use_type_invariant(&*self);
        }
        let ghost before = self.entries@;
        let entry = BalanceEntry { key: Key::Balance(who), amount };
        let found = self.position(&who);
        let mut entries: Vec<BalanceEntry> = Vec::new();
        std::mem::swap(&mut entries, &mut self.entries);
        match found {
            Some(i) => {
                entries.set(i, entry);
                proof {
                    let after = entries@;
                    assert(after == before.update(i as int, entry));
                    assert(distinct_keys(after)) by {
                        assert forall|x: int, y: int| 0 <= x < y < after.len() implies after[x].key
                            != after[y].key by {
                            if x != i && y != i {
                                assert(before[x].key != before[y].key);
                            } else if x == i {
                                assert(before[x].key != before[y].key);
                            } else {
                                assert(before[x].key != before[y].key);
                            }
                        }
                    }
                    assert forall|b: AccountId| #[trigger]
                        stored_balance(after, b) == if b == who {
                            amount
                        } else {
                            stored_balance(before, b)
                        } by {
                        if b == who {
                            lemma_stored_at(after, b, i as int);
                        } else if stores(before, b) {
                            let k = choose|k: int|
                                0 <= k < before.len() && #[trigger] before[k].key == Key::Balance(
                                    b,
                                );
                            lemma_stored_at(before, b, k);
                            assert(k != i);
                            assert(after[k] == before[k]);
                            lemma_stored_at(after, b, k);
                        } else {
                            assert forall|k: int| 0 <= k < after.len() implies #[trigger] after[k].key
                                != Key::Balance(b) by {
                                if k != i {
                                    assert(after[k] == before[k]);
                                }
                            }
                        }
                    }
                }
            },
            None => {
                entries.push(entry);
                proof {
                    let after = entries@;
                    assert(after == before.push(entry));
                    assert(distinct_keys(after)) by {
                        assert forall|x: int, y: int| 0 <= x < y < after.len() implies after[x].key
                            != after[y].key by {
                            if y == before.len() {
                                assert(after[x] == before[x]);
                            } else {
                                assert(before[x].key != before[y].key);
                            }
                        }
                    }
                    assert forall|b: AccountId| #[trigger]
                        stored_balance(after, b) == if b == who {
                            amount
                        } else {
                            stored_balance(before, b)
                        } by {
                        if b == who {
                            lemma_stored_at(after, b, before.len() as int);
                        } else if stores(before, b) {
                            let k = choose|k: int|
                                0 <= k < before.len() && #[trigger] before[k].key == Key::Balance(
                                    b,
                                );
                            lemma_stored_at(before, b, k);
                            assert(after[k] == before[k]);
                            lemma_stored_at(after, b, k);
                        } else {
                            assert forall|k: int| 0 <= k < after.len() implies #[trigger] after[k].key
                                != Key::Balance(b) by {
                                if k < before.len() {
                                    assert(after[k] == before[k]);
                                }
                            }
                        }
                    }
                }
            },
        }
        self.entries = entries;
    }

    /// Adds `amount` to the balance of `to`.
    pub fn mint(&mut self, to: AccountId, amount: i128) -> (r: Result<(), MockTokenError>)
        ensures
            ({
                let sum = old(self).balance_of(to) + amount;
                &&& r is Ok <==> i128::MIN <= sum <= i128::MAX
                &&& r is Ok ==> forall|b: AccountId| #[trigger]
                    final(self).balance_of(b) == if b == to {
                        sum
                    } else {
                        old(self).balance_of(b) as int
                    }
                &&& r is Err ==> r == Err::<(), MockTokenError>(MockTokenError::Overflow)
                    && forall|b: AccountId| #[trigger]
                    final(self).balance_of(b) == old(self).balance_of(b)
            }),
    {
        let current = self.balance(to);
        match current.checked_add(amount) {
            None => Err(MockTokenError::Overflow),
            Some(total) => {
                self.store(to, total);
                Ok(())
            },
        }
    }

    /// Moves `amount` from `from` to `to`; returns `from`, whose authorisation
    /// the transfer needs.  The sender's balance is debited before the
    /// recipient's is read, so a transfer to oneself leaves every balance as it was.
    pub fn transfer(&mut self, from: AccountId, to: AccountId, amount: i128) -> (r: Result<
        AccountId,
        MockTokenError,
    >)
        ensures
            ({
                let from_bal = old(self).balance_of(from) as int;
                let debited = from_bal - amount;
                let credited = (if to == from {
                    debited
                } else {
                    old(self).balance_of(to) as int
                }) + amount;
                &&& from_bal < amount ==> r == Err::<AccountId, MockTokenError>(
                    MockTokenError::InsufficientBalance,
                )
                &&& from_bal >= amount && debited > i128::MAX ==> r == Err::<
                    AccountId,
                    MockTokenError,
                >(MockTokenError::Overflow)
                &&& from_bal >= amount && debited <= i128::MAX && (credited < i128::MIN
                    || credited > i128::MAX) ==> r == Err::<AccountId, MockTokenError>(
                    MockTokenError::Overflow,
                )
                &&& r is Ok <==> transfer_accepted(*old(self), from, to, amount)
                &&& r is Ok ==> r == Ok::<AccountId, MockTokenError>(from) && moved(
                    *old(self),
                    *final(self),
                    from,
                    to,
                    amount,
                )
                &&& r is Err ==> forall|b: AccountId| #[trigger]
                    final(self).balance_of(b) == old(self).balance_of(b)
            }),
    {
        let from_bal = self.balance(from);
        if from_bal < amount {
            return Err(MockTokenError::InsufficientBalance);
        }
        let debited = match from_bal.checked_sub(amount) {
            None => {
                return Err(MockTokenError::Overflow);
            },
            Some(v) => v,
        };
        let to_bal = if to.same_as(&from) {
            debited
        } else {
            self.balance(to)
        };
        let credited = match to_bal.checked_add(amount) {
            None => {
                return Err(MockTokenError::Overflow);
            },
            Some(v) => v,
        };
        self.store(from, debited);
        self.store(to, credited);
        Ok(from)
    }
}

} // verus!
