//! The collateral ledger: the locked collateral balance of every account.
//!
//! The ledger is append-only: each operation posts a new entry, and an
//! account's balance is the amount of its most recent posting.  Operations
//! either complete or fail without any posting; partial effects are never
//! visible.

use vstd::prelude::*;
use crate::types::{AccountId, Amount, VaultError};

verus! {

/// The balance an account has after the postings in `s`: the amount of the
/// last posting for that account, or zero if it has none.
pub open spec fn seq_balance(s: Seq<(AccountId, Amount)>, id: AccountId) -> Amount
    decreases s.len(),
{
    if s.len() == 0 {
        0
    } else if s.last().0 == id {
        s.last().1
    } else {
        seq_balance(s.drop_last(), id)
    }
}

proof fn lemma_seq_balance_push(s: Seq<(AccountId, Amount)>, e: (AccountId, Amount))
    ensures
        seq_balance(s.push(e), e.0) == e.1,
        forall|id: AccountId| id != e.0 ==> seq_balance(s.push(e), id) == seq_balance(s, id),
{
    assert(s.push(e).last() == e);
    assert(s.push(e).drop_last() =~= s);
}

/// Locked collateral balances, one per account, in the collateral asset's
/// smallest unit.
pub struct CollateralLedger {
    entries: Vec<(AccountId, Amount)>,
}

impl CollateralLedger {
    /// The locked balance of `id`.
    pub closed spec fn spec_balance(self, id: AccountId) -> Amount {
        seq_balance(self.entries@, id)
    }

    /// A fresh ledger, with nothing locked for any account.
    pub fn new() -> (r: CollateralLedger)
        ensures
            forall|id: AccountId| r.spec_balance(id) == 0,
    {
        CollateralLedger { entries: Vec::new() }
    }

    /// Record a new balance for `id`, leaving every other account as it
    /// was.
    fn post(&mut self, id: AccountId, amount: Amount)
        ensures
            final(self).spec_balance(id) == amount,
            forall|o: AccountId|
                o != id ==> final(self).spec_balance(o) == old(self).spec_balance(o),
    {
        let ghost olds = self.entries@;
        self.entries.push((id, amount));
        proof {
            lemma_seq_balance_push(olds, (id, amount));
        }
    }

    /// The locked balance of `id`.
    pub fn balance_of(&self, id: AccountId) -> (r: Amount)
        ensures
            r == self.spec_balance(id),
    {
        let s = &self.entries;
        let mut i: usize = s.len();
        proof {
            assert(s@.take(i as int) =~= s@);
        }
        while i > 0
            invariant
                i <= s@.len(),
                s@ == self.entries@,
                seq_balance(s@, id) == seq_balance(s@.take(i as int), id),
            decreases i,
        {
            let e = s[i - 1];
            proof {
                let t = s@.take(i as int);
                assert(t.last() == s@[i - 1]);
                assert(t.drop_last() =~= s@.take(i - 1));
            }
            if e.0 == id {
                proof {
                    let t = s@.take(i as int);
                    assert(t.len() == i);
                    assert(seq_balance(t, id) == e.1);
                }
                return e.1;
            }
            i -= 1;
        }
        proof {
            assert(s@.take(0) =~= Seq::<(AccountId, Amount)>::empty());
        }
        0
    }

    /// Lock `amount` more collateral for `id`.  Fails only when the new
    /// balance would not fit the amount type; a failure changes nothing.
    pub fn lock(&mut self, id: AccountId, amount: Amount) -> (res: Result<(), VaultError>)
        ensures
            res is Ok <==> old(self).spec_balance(id) + amount <= Amount::MAX,
            res is Ok ==> final(self).spec_balance(id) == old(self).spec_balance(id) + amount,
            res is Ok ==> forall|o: AccountId|
                o != id ==> final(self).spec_balance(o) == old(self).spec_balance(o),
            res matches Err(e) ==> e == VaultError::ArithmeticOverflow && *final(self) == *old(
                self,
            ),
    {
        let balance = self.balance_of(id);
        match balance.checked_add(amount) {
            Some(next) => {
                self.post(id, next);
                Ok(())
            },
            None => Err(VaultError::ArithmeticOverflow),
        }
    }

    /// Release `amount` of the collateral locked for `id`.  Fails only
    /// when less than `amount` is locked; a failure changes nothing.
    pub fn release_collateral(&mut self, id: AccountId, amount: Amount) -> (res: Result<
        (),
        VaultError,
    >)
        ensures
            res is Ok <==> amount <= old(self).spec_balance(id),
            res is Ok ==> final(self).spec_balance(id) == old(self).spec_balance(id) - amount,
            res is Ok ==> forall|o: AccountId|
                o != id ==> final(self).spec_balance(o) == old(self).spec_balance(o),
            res matches Err(e) ==> e == VaultError::ArithmeticUnderflow && *final(self) == *old(
                self,
            ),
    {
        let balance = self.balance_of(id);
        if amount > balance {
            return Err(VaultError::ArithmeticUnderflow);
        }
        self.post(id, balance - amount);
        Ok(())
    }

    /// Seize `amount` of the collateral locked for `from` and lock it for
    /// `to` instead.  Both postings happen or neither does.
    pub fn slash_collateral(&mut self, from: AccountId, to: AccountId, amount: Amount) -> (res:
        Result<(), VaultError>)
        requires
            from != to,
        ensures
            res is Ok <==> amount <= old(self).spec_balance(from) && old(self).spec_balance(to)
                + amount <= Amount::MAX,
            res is Ok ==> final(self).spec_balance(from) == old(self).spec_balance(from) - amount,
            res is Ok ==> final(self).spec_balance(to) == old(self).spec_balance(to) + amount,
            res is Ok ==> forall|o: AccountId|
                o != from && o != to ==> final(self).spec_balance(o) == old(self).spec_balance(o),
            res is Err ==> *final(self) == *old(self),
            res matches Err(e) ==> (e == VaultError::ArithmeticUnderflow || e
                == VaultError::ArithmeticOverflow),
            res matches Err(e) ==> (e == VaultError::ArithmeticUnderflow <==> amount > old(
                self,
            ).spec_balance(from)),
    {
        let from_balance = self.balance_of(from);
        if amount > from_balance {
            return Err(VaultError::ArithmeticUnderflow);
        }
        let to_balance = self.balance_of(to);
        match to_balance.checked_add(amount) {
            Some(next_to) => {
                self.post(from, from_balance - amount);
                self.post(to, next_to);
                Ok(())
            },
            None => Err(VaultError::ArithmeticOverflow),
        }
    }
}

} // verus!
