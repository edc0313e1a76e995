//! The ledger: account balances and the total issued supply.
//!
//! Balance and supply are always moved together: `credit` raises both by
//! the same amount and `debit` lowers both by the same amount, so the
//! difference between the supply and the sum of all balances never changes
//! after construction.

use crate::assoc;
use crate::errors::TokenError;
use vstd::prelude::*;

verus! {

/// The sum of all stored balances.
pub open spec fn sum_values(s: Seq<(String, u128)>) -> int
    decreases s.len(),
{
    if s.len() <= 0 {
        0
    } else {
        s[0].1 + sum_values(s.drop_first())
    }
}

pub proof fn lemma_sum_nonneg(s: Seq<(String, u128)>)
    ensures
        sum_values(s) >= 0,
    decreases s.len(),
{
    if s.len() > 0 {
        lemma_sum_nonneg(s.drop_first());
    }
}

/// Replacing one entry moves the sum by the difference of its values.
pub proof fn lemma_sum_update(s: Seq<(String, u128)>, i: int, p: (String, u128))
    requires
        0 <= i < s.len(),
    ensures
        sum_values(s.update(i, p)) == sum_values(s) - s[i].1 + p.1,
    decreases s.len(),
{
    let s2 = s.update(i, p);
    if i == 0 {
        assert(s2.drop_first() =~= s.drop_first());
    } else {
        assert(s2.drop_first() =~= s.drop_first().update(i - 1, p));
        lemma_sum_update(s.drop_first(), i - 1, p);
    }
}

/// Appending an entry adds its value to the sum.
pub proof fn lemma_sum_push(s: Seq<(String, u128)>, p: (String, u128))
    ensures
        sum_values(s.push(p)) == sum_values(s) + p.1,
    decreases s.len(),
{
    assert(s.push(p)[0] == if s.len() == 0 { p } else { s[0] });
    if s.len() == 0 {
        assert(s.push(p).drop_first() =~= Seq::<(String, u128)>::empty());
        assert(sum_values(Seq::<(String, u128)>::empty()) == 0);
    } else {
        assert(s.push(p).drop_first() =~= s.drop_first().push(p));
        lemma_sum_push(s.drop_first(), p);
    }
}

/// Any single stored balance is at most the sum of all of them.
pub proof fn lemma_entry_le_sum(s: Seq<(String, u128)>, k: Seq<char>)
    ensures
        balance_in(s, k) <= sum_values(s),
    decreases s.len(),
{
    lemma_sum_nonneg(s);
    if s.len() > 0 {
        if s[0].0@ == k {
            lemma_sum_nonneg(s.drop_first());
        } else {
            lemma_entry_le_sum(s.drop_first(), k);
        }
    }
}

/// The balance stored under `k`, or zero where there is no entry.
pub open spec fn balance_in(s: Seq<(String, u128)>, k: Seq<char>) -> u128 {
    match assoc::lookup(s, k) {
        Some(v) => v,
        None => 0,
    }
}

/// Account balances and the total issued supply, owned together.
pub struct Ledger {
    balances: Vec<(String, u128)>,
    total_supply: u128,
}

impl Ledger {
    /// The balance held by `account`, zero for an account never credited.
    pub closed spec fn spec_balance(self, account: Seq<char>) -> u128 {
        balance_in(self.balances@, account)
    }

    /// The sum of all account balances.
    pub closed spec fn spec_sum(self) -> int {
        sum_values(self.balances@)
    }

    /// The total issued supply.
    pub closed spec fn spec_supply(self) -> u128 {
        self.total_supply
    }

    /// Each account has at most one entry, and the supply covers the sum
    /// of all balances, so a debit within one balance can never underflow
    /// the supply.
    pub closed spec fn wf(self) -> bool {
        &&& assoc::keys_unique(self.balances@)
        &&& self.spec_sum() <= self.spec_supply()
    }

    /// The supply equals the sum of all balances. Established by a
    /// construction with no initial supply and preserved by every
    /// operation.
    pub open spec fn conserves(self) -> bool {
        self.spec_supply() == self.spec_sum()
    }

    /// No single balance can exceed the issued supply: the supply covers
    /// the sum of all balances, and every balance is one summand of it.
    pub proof fn lemma_balance_le_supply(self, account: Seq<char>)
        requires
            self.wf(),
        ensures
            self.spec_balance(account) <= self.spec_supply(),
    {
        lemma_entry_le_sum(self.balances@, account);
    }

    pub fn new(initial_supply: u128) -> (r: Ledger)
        ensures
            r.wf(),
            r.spec_supply() == initial_supply,
            r.spec_sum() == 0,
            forall|k: Seq<char>| r.spec_balance(k) == 0,
    {
        let ledger = Ledger { balances: Vec::new(), total_supply: initial_supply };
        proof {
            assert(forall|k: Seq<char>|
                assoc::lookup(ledger.balances@, k) is None);
        }
        ledger
    }

    /// The total issued supply.
    pub fn supply(&self) -> (r: u128)
        ensures
            r == self.spec_supply(),
    {
        self.total_supply
    }

    /// The stored balance, zero for an unknown account; always succeeds.
    pub fn balance_of(&self, account: &String) -> (r: u128)
        ensures
            r == self.spec_balance(account@),
    {
        match assoc::find_index(&self.balances, account) {
            Some(i) => {
                proof {
                    assoc::lemma_lookup_match(self.balances@, account@, i as int);
                }
                self.balances[i].1
            },
            None => {
                proof {
                    assoc::lemma_lookup_none(self.balances@, account@);
                }
                0
            },
        }
    }

    /// Raises `account`'s balance and the supply by `amount`, in one step.
    /// A credit of zero is a harmless no-op on both.
    pub fn credit(&mut self, account: &String, amount: u128)
        requires
            old(self).wf(),
            old(self).spec_balance(account@) + amount <= u128::MAX,
            old(self).spec_supply() + amount <= u128::MAX,
        ensures
            final(self).wf(),
            final(self).spec_balance(account@) == old(self).spec_balance(account@) + amount,
            forall|k: Seq<char>| k != account@
                ==> final(self).spec_balance(k) == old(self).spec_balance(k),
            final(self).spec_supply() == old(self).spec_supply() + amount,
            final(self).spec_sum() == old(self).spec_sum() + amount,
    {
        match assoc::find_index(&self.balances, account) {
            Some(i) => {
                proof {
                    assoc::lemma_lookup_match(self.balances@, account@, i as int);
                }
                let ghost s0 = self.balances@;
                let key = self.balances[i].0.clone();
                let stored = self.balances[i].1;
                let pair = (key, stored + amount);
                self.balances[i] = pair;
                proof {
                    lemma_sum_update(s0, i as int, (pair.0, pair.1));
                    assoc::lemma_lookup_match(self.balances@, account@, i as int);
                    assert(forall|k: Seq<char>| k != account@ ==> #[trigger] assoc::lookup(
                        self.balances@, k) == assoc::lookup(s0, k)) by {
                        assert forall|k: Seq<char>| k != account@ implies #[trigger] assoc::lookup(
                            self.balances@, k) == assoc::lookup(s0, k) by {
                            assoc::lemma_lookup_update_other(s0, i as int, (pair.0, pair.1), k);
                        }
                    }
                }
            },
            None => {
                proof {
                    assoc::lemma_lookup_none(self.balances@, account@);
                }
                let ghost s0 = self.balances@;
                let pair = (account.clone(), amount);
                self.balances.push(pair);
                proof {
                    lemma_sum_push(s0, (pair.0, pair.1));
                    assert(self.balances@[s0.len() as int].0@ == account@);
                    assoc::lemma_lookup_match(self.balances@, account@, s0.len() as int);
                    assert(forall|k: Seq<char>| k != account@ ==> #[trigger] assoc::lookup(
                        self.balances@, k) == assoc::lookup(s0, k)) by {
                        assert forall|k: Seq<char>| k != account@ implies #[trigger] assoc::lookup(
                            self.balances@, k) == assoc::lookup(s0, k) by {
                            assoc::lemma_lookup_push_other(s0, (pair.0, pair.1), k);
                        }
                    }
                }
            },
        }
        self.total_supply = self.total_supply + amount;
    }

    /// Lowers `account`'s balance and the supply by `amount`, in one step,
    /// or rejects the debit whole where the balance does not cover it.
    pub fn debit(&mut self, account: &String, amount: u128) -> (r: Result<(), TokenError>)
        requires
            old(self).wf(),
        ensures
            final(self).wf(),
            amount > old(self).spec_balance(account@) ==> r == Err::<(), TokenError>(
                TokenError::InsufficientBalance) && *final(self) == *old(self),
            amount <= old(self).spec_balance(account@) ==> r == Ok::<(), TokenError>(())
                && final(self).spec_balance(account@) == old(self).spec_balance(account@) - amount
                && (forall|k: Seq<char>| k != account@
                    ==> final(self).spec_balance(k) == old(self).spec_balance(k))
                && final(self).spec_supply() == old(self).spec_supply() - amount
                && final(self).spec_sum() == old(self).spec_sum() - amount,
    {
        proof {
            // The stored balance is one summand of the sum, which the
            // supply covers, so the supply update cannot underflow.
            lemma_entry_le_sum(self.balances@, account@);
        }
        match assoc::find_index(&self.balances, account) {
            Some(i) => {
                proof {
                    assoc::lemma_lookup_match(self.balances@, account@, i as int);
                }
                let stored = self.balances[i].1;
                if amount > stored {
                    return Err(TokenError::InsufficientBalance);
                }
                let ghost s0 = self.balances@;
                let key = self.balances[i].0.clone();
                let pair = (key, stored - amount);
                self.balances[i] = pair;
                proof {
                    lemma_sum_update(s0, i as int, (pair.0, pair.1));
                    assoc::lemma_lookup_match(self.balances@, account@, i as int);
                    assert(forall|k: Seq<char>| k != account@ ==> #[trigger] assoc::lookup(
                        self.balances@, k) == assoc::lookup(s0, k)) by {
                        assert forall|k: Seq<char>| k != account@ implies #[trigger] assoc::lookup(
                            self.balances@, k) == assoc::lookup(s0, k) by {
                            assoc::lemma_lookup_update_other(s0, i as int, (pair.0, pair.1), k);
                        }
                    }
                }
                self.total_supply = self.total_supply - amount;
                Ok(())
            },
            None => {
                proof {
                    assoc::lemma_lookup_none(self.balances@, account@);
                }
                if amount > 0 {
                    return Err(TokenError::InsufficientBalance);
                }
                Ok(())
            },
        }
    }
}

} // verus!
