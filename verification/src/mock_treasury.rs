use vstd::prelude::*;

use crate::account::AccountId;

verus! {

/// One withdrawal that the mock treasury was asked to make.
#[derive(Clone, Copy, Debug)]
pub struct Withdrawal {
    pub to: AccountId,
    pub amount: i128,
}

/// A treasury that only records the withdrawals asked of it, in order.
pub struct MockTreasury {
    history: Vec<Withdrawal>,
}

impl MockTreasury {
    /// The withdrawals recorded so far, oldest first.
    pub closed spec fn recorded(&self) -> Seq<Withdrawal> {
        self.history@
    }

    /// A treasury that has recorded nothing.
    pub fn new() -> (r: MockTreasury)
        ensures
            r.recorded() == Seq::<Withdrawal>::empty(),
    {
        MockTreasury { history: Vec::new() }
    }

    /// Records a withdrawal of `amount` to `to`.
    pub fn withdraw(&mut self, to: AccountId, amount: i128)
        ensures
            final(self).recorded() == old(self).recorded().push(Withdrawal { to, amount }),
    {
        self.history.push(Withdrawal { to, amount });
    }

    /// The withdrawals recorded so far, oldest first.
    pub fn get_withdrawals(&self) -> (r: Vec<Withdrawal>)
        ensures
            r@ == self.recorded(),
    {
        let mut out: Vec<Withdrawal> = Vec::new();
        let mut i: usize = 0;
        while i < self.history.len()
            invariant
                i <= self.history@.len(),
                out@ == self.history@.subrange(0, i as int),
            decreases self.history@.len() - i,
        {
            out.push(self.history[i]);
            i = i + 1;
        }
        assert(self.history@.subrange(0, self.history@.len() as int) =~= self.history@);
        out
    }
}

} // verus!
