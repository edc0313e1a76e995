//! The redemption catalog: the set of named benefits points can be
//! redeemed against, with each benefit's cost and availability.

use crate::assoc;
use crate::errors::TokenError;
use vstd::prelude::*;

verus! {

/// One redeemable benefit. The identifier under which it is stored equals
/// its `name`; `cost` is always positive.
#[derive(Debug, PartialEq, Eq)]
pub struct RedemptionOption {
    pub name: String,
    pub cost: u128,
    pub available: bool,
    pub description: String,
}

/// The catalog, keyed by option identifier.
pub struct RedemptionCatalog {
    entries: Vec<(String, RedemptionOption)>,
}

impl RedemptionCatalog {
    /// The option stored under `id`, if any.
    pub closed spec fn spec_option(self, id: Seq<char>) -> Option<RedemptionOption> {
        assoc::lookup(self.entries@, id)
    }

    /// The stored entries, in storage order.
    pub closed spec fn spec_entries(self) -> Seq<(String, RedemptionOption)> {
        self.entries@
    }

    /// Identifiers are pairwise distinct, each option's name equals the
    /// identifier it is stored under, and every cost is positive.
    pub closed spec fn wf(self) -> bool {
        &&& assoc::keys_unique(self.entries@)
        &&& forall|i: int| 0 <= i < self.entries@.len()
            ==> (#[trigger] self.entries@[i]).1.name@ == self.entries@[i].0@
                && self.entries@[i].1.cost >= 1
    }

    pub fn new() -> (r: RedemptionCatalog)
        ensures
            r.wf(),
            forall|k: Seq<char>| r.spec_option(k) is None,
    {
        let catalog = RedemptionCatalog { entries: Vec::new() };
        proof {
            assert(forall|k: Seq<char>| assoc::lookup(catalog.entries@, k) is None);
        }
        catalog
    }

    /// Stores an option under `name`, overwriting any option already
    /// stored there; the new option is available and carries the given
    /// cost and description. A cost of zero is rejected whole.
    pub fn add_option(&mut self, name: &String, cost: u128, description: String) -> (r: Result<
        (),
        TokenError,
    >)
        requires
            old(self).wf(),
        ensures
            final(self).wf(),
            cost == 0 ==> r == Err::<(), TokenError>(TokenError::InvalidCost)
                && *final(self) == *old(self),
            cost >= 1 ==> r == Ok::<(), TokenError>(())
                && (final(self).spec_option(name@) matches Some(o) && o.name@ == name@
                    && o.cost == cost && o.available && o.description == description)
                && (forall|k: Seq<char>| k != name@
                    ==> final(self).spec_option(k) == old(self).spec_option(k)),
    {
        if cost == 0 {
            return Err(TokenError::InvalidCost);
        }
        let option = RedemptionOption { name: name.clone(), cost, available: true, description };
        match assoc::find_index(&self.entries, name) {
            Some(i) => {
                let ghost s0 = self.entries@;
                let key = self.entries[i].0.clone();
                let pair = (key, option);
                self.entries[i] = pair;
                proof {
                    assoc::lemma_lookup_match(self.entries@, name@, i as int);
                    assert(forall|k: Seq<char>| k != name@ ==> #[trigger] assoc::lookup(
                        self.entries@, k) == assoc::lookup(s0, k)) by {
                        assert forall|k: Seq<char>| k != name@ implies #[trigger] assoc::lookup(
                            self.entries@, k) == assoc::lookup(s0, k) by {
                            assoc::lemma_lookup_update_other(
                                s0,
                                i as int,
                                self.entries@[i as int],
                                k,
                            );
                        }
                    }
                }
            },
            None => {
                let ghost s0 = self.entries@;
                let pair = (name.clone(), option);
                self.entries.push(pair);
                proof {
                    assert(self.entries@[s0.len() as int].0@ == name@);
                    assoc::lemma_lookup_match(self.entries@, name@, s0.len() as int);
                    assert(forall|k: Seq<char>| k != name@ ==> #[trigger] assoc::lookup(
                        self.entries@, k) == assoc::lookup(s0, k)) by {
                        assert forall|k: Seq<char>| k != name@ implies #[trigger] assoc::lookup(
                            self.entries@, k) == assoc::lookup(s0, k) by {
                            assoc::lemma_lookup_push_other(
                                s0,
                                self.entries@[s0.len() as int],
                                k,
                            );
                        }
                    }
                }
            },
        }
        Ok(())
    }

    /// A reference to the option stored under `id`, or `OptionNotFound`.
    pub fn get(&self, id: &String) -> (r: Result<&RedemptionOption, TokenError>)
        ensures
            match r {
                Ok(o) => self.spec_option(id@) == Some(*o),
                Err(e) => e == TokenError::OptionNotFound && self.spec_option(id@) is None,
            },
    {
        match assoc::find_index(&self.entries, id) {
            Some(i) => {
                proof {
                    assoc::lemma_lookup_match(self.entries@, id@, i as int);
                }
                Ok(&self.entries[i].1)
            },
            None => {
                proof {
                    assoc::lemma_lookup_none(self.entries@, id@);
                }
                Err(TokenError::OptionNotFound)
            },
        }
    }

    /// Flips the availability of the option stored under `id`.
    pub fn set_availability(&mut self, id: &String, available: bool) -> (r: Result<
        (),
        TokenError,
    >)
        requires
            old(self).wf(),
        ensures
            final(self).wf(),
            old(self).spec_option(id@) is None ==> r == Err::<(), TokenError>(
                TokenError::OptionNotFound) && *final(self) == *old(self),
            old(self).spec_option(id@) matches Some(o) ==> r == Ok::<(), TokenError>(())
                && final(self).spec_option(id@) == Some(RedemptionOption {
                    available,
                    ..o
                })
                && (forall|k: Seq<char>| k != id@
                    ==> final(self).spec_option(k) == old(self).spec_option(k)),
    {
        match assoc::find_index(&self.entries, id) {
            Some(i) => {
                proof {
                    assoc::lemma_lookup_match(self.entries@, id@, i as int);
                }
                let ghost s0 = self.entries@;
                let key = self.entries[i].0.clone();
                let option = RedemptionOption {
                    name: self.entries[i].1.name.clone(),
                    cost: self.entries[i].1.cost,
                    available,
                    description: self.entries[i].1.description.clone(),
                };
                let pair = (key, option);
                self.entries[i] = pair;
                proof {
                    assoc::lemma_lookup_match(self.entries@, id@, i as int);
                    assert(forall|k: Seq<char>| k != id@ ==> #[trigger] assoc::lookup(
                        self.entries@, k) == assoc::lookup(s0, k)) by {
                        assert forall|k: Seq<char>| k != id@ implies #[trigger] assoc::lookup(
                            self.entries@, k) == assoc::lookup(s0, k) by {
                            assoc::lemma_lookup_update_other(
                                s0,
                                i as int,
                                self.entries@[i as int],
                                k,
                            );
                        }
                    }
                }
                Ok(())
            },
            None => {
                proof {
                    assoc::lemma_lookup_none(self.entries@, id@);
                }
                Err(TokenError::OptionNotFound)
            },
        }
    }

    /// A snapshot of the whole catalog: every entry once, storage order.
    pub fn list(&self) -> (r: Vec<(String, RedemptionOption)>)
        requires
            self.wf(),
        ensures
            r@ == self.spec_entries(),
            forall|i: int| 0 <= i < r@.len()
                ==> self.spec_option((#[trigger] r@[i]).0@) == Some(r@[i].1),
            forall|i: int, j: int| 0 <= i < j < r@.len() ==> r@[i].0@ != r@[j].0@,
            forall|k: Seq<char>| self.spec_option(k) is Some
                ==> exists|i: int| 0 <= i < r@.len() && (#[trigger] r@[i]).0@ == k
                    && Some(r@[i].1) == self.spec_option(k),
    {
        let mut r: Vec<(String, RedemptionOption)> = Vec::new();
        let mut i: usize = 0;
        while i < self.entries.len()
            invariant
                0 <= i <= self.entries@.len(),
                r@ == self.entries@.subrange(0, i as int),
            decreases self.entries@.len() - i,
        {
            let entry = &self.entries[i];
            let pair = (
                entry.0.clone(),
                RedemptionOption {
                    name: entry.1.name.clone(),
                    cost: entry.1.cost,
                    available: entry.1.available,
                    description: entry.1.description.clone(),
                },
            );
            proof {
                assert(pair == self.entries@[i as int]);
            }
            r.push(pair);
            proof {
                assert(r@ =~= self.entries@.subrange(0, i + 1 as int));
            }
            i = i + 1;
        }
        proof {
            assert(r@ =~= self.entries@);
            assert forall|i2: int| 0 <= i2 < r@.len() implies self.spec_option(
                (#[trigger] r@[i2]).0@) == Some(r@[i2].1) by {
                assoc::lemma_lookup_match(self.entries@, r@[i2].0@, i2);
            }
            assert forall|k: Seq<char>| self.spec_option(k) is Some implies exists|i2: int|
                0 <= i2 < r@.len() && (#[trigger] r@[i2]).0@ == k
                    && Some(r@[i2].1) == self.spec_option(k) by {
                assoc::lemma_lookup_some_index(self.entries@, k);
            }
        }
        r
    }
}

} // verus!
