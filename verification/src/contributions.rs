//! The contribution log: per-account, append-only histories of submitted
//! contribution metrics.

use crate::assoc;
use crate::errors::TokenError;
use vstd::prelude::*;

verus! {

/// One submitted contribution: three scores, each between 0 and 100, and
/// the submission timestamp. Records are never mutated once appended.
#[derive(Clone, Copy, Debug, PartialEq, Eq, Structural)]
pub struct ContributionMetrics {
    pub data_quality: u8,
    pub model_improvement: u8,
    pub participation_frequency: u8,
    pub timestamp: u64,
}

/// Every score lies within the accepted range.
pub open spec fn metrics_valid(m: ContributionMetrics) -> bool {
    m.data_quality <= 100 && m.model_improvement <= 100 && m.participation_frequency <= 100
}

/// Append-only contribution histories, keyed by account.
pub struct ContributionLog {
    entries: Vec<(String, Vec<ContributionMetrics>)>,
}

impl ContributionLog {
    /// The ordered history recorded for `account`, empty for an account
    /// never written to.
    pub closed spec fn spec_history(self, account: Seq<char>) -> Seq<ContributionMetrics> {
        match assoc::lookup(self.entries@, account) {
            Some(h) => h@,
            None => Seq::empty(),
        }
    }

    pub closed spec fn wf(self) -> bool {
        assoc::keys_unique(self.entries@)
    }

    pub fn new() -> (r: ContributionLog)
        ensures
            r.wf(),
            forall|k: Seq<char>| r.spec_history(k) == Seq::<ContributionMetrics>::empty(),
    {
        let log = ContributionLog { entries: Vec::new() };
        proof {
            assert(forall|k: Seq<char>| assoc::lookup(log.entries@, k) is None);
        }
        log
    }

    /// Appends `metrics` to `account`'s history, in submission order, or
    /// rejects an out-of-range score whole.
    pub fn record(&mut self, account: &String, metrics: ContributionMetrics) -> (r: Result<
        (),
        TokenError,
    >)
        requires
            old(self).wf(),
        ensures
            final(self).wf(),
            !metrics_valid(metrics) ==> r == Err::<(), TokenError>(TokenError::InvalidMetric)
                && *final(self) == *old(self),
            metrics_valid(metrics) ==> r == Ok::<(), TokenError>(())
                && final(self).spec_history(account@) == old(self).spec_history(account@).push(
                metrics)
                && (forall|k: Seq<char>| k != account@
                    ==> final(self).spec_history(k) == old(self).spec_history(k)),
    {
        if !(metrics.data_quality <= 100 && metrics.model_improvement <= 100
            && metrics.participation_frequency <= 100) {
            return Err(TokenError::InvalidMetric);
        }
        match assoc::find_index(&self.entries, account) {
            Some(i) => {
                proof {
                    assoc::lemma_lookup_match(self.entries@, account@, i as int);
                }
                let ghost s0 = self.entries@;
                let key = self.entries[i].0.clone();
                let mut history = copy_history(&self.entries[i].1);
                history.push(metrics);
                let pair = (key, history);
                self.entries[i] = pair;
                proof {
                    assoc::lemma_lookup_match(self.entries@, account@, i as int);
                    assert(forall|k: Seq<char>| k != account@ ==> #[trigger] assoc::lookup(
                        self.entries@, k) == assoc::lookup(s0, k)) by {
                        assert forall|k: Seq<char>| k != account@ implies #[trigger] assoc::lookup(
                            self.entries@, k) == assoc::lookup(s0, k) by {
                            assoc::lemma_lookup_update_other(
                                s0,
                                i as int,
                                self.entries@[i as int],
                                k,
                            );
                        }
                    }
                }
            },
            None => {
                proof {
                    assoc::lemma_lookup_none(self.entries@, account@);
                }
                let ghost s0 = self.entries@;
                let mut history: Vec<ContributionMetrics> = Vec::new();
                history.push(metrics);
                let pair = (account.clone(), history);
                self.entries.push(pair);
                proof {
                    assert(self.entries@[s0.len() as int].0@ == account@);
                    assoc::lemma_lookup_match(self.entries@, account@, s0.len() as int);
                    assert(forall|k: Seq<char>| k != account@ ==> #[trigger] assoc::lookup(
                        self.entries@, k) == assoc::lookup(s0, k)) by {
                        assert forall|k: Seq<char>| k != account@ implies #[trigger] assoc::lookup(
                            self.entries@, k) == assoc::lookup(s0, k) by {
                            assoc::lemma_lookup_push_other(
                                s0,
                                self.entries@[s0.len() as int],
                                k,
                            );
                        }
                    }
                    assert(final(self).spec_history(account@) =~= old(self).spec_history(
                        account@).push(metrics));
                }
            },
        }
        Ok(())
    }

    /// A copy of the ordered history recorded for `account`.
    pub fn history_of(&self, account: &String) -> (r: Vec<ContributionMetrics>)
        ensures
            r@ == self.spec_history(account@),
    {
        match assoc::find_index(&self.entries, account) {
            Some(i) => {
                proof {
                    assoc::lemma_lookup_match(self.entries@, account@, i as int);
                }
                copy_history(&self.entries[i].1)
            },
            None => {
                proof {
                    assoc::lemma_lookup_none(self.entries@, account@);
                }
                let r: Vec<ContributionMetrics> = Vec::new();
                proof {
                    assert(r@ =~= self.spec_history(account@));
                }
                r
            },
        }
    }
}

/// Ordering law: recording two contributions in turn appends both to the
/// history, in submission order — the first lands directly after the
/// entries already present and the second after it, and nothing already
/// recorded moves. `record` appends exactly one metric per successful
/// call, so any two successful calls for one account grow its history
/// this way.
pub proof fn lemma_two_records_in_order(
    h: Seq<ContributionMetrics>,
    m1: ContributionMetrics,
    m2: ContributionMetrics,
)
    ensures
        h.push(m1).push(m2).len() == h.len() + 2,
        h.push(m1).push(m2)[h.len() as int] == m1,
        h.push(m1).push(m2)[h.len() as int + 1] == m2,
        h.push(m1).push(m2).subrange(0, h.len() as int) == h,
{
    assert(h.push(m1).push(m2).subrange(0, h.len() as int) =~= h);
}

/// An element-for-element copy of a stored history.
fn copy_history(history: &Vec<ContributionMetrics>) -> (r: Vec<ContributionMetrics>)
    ensures
        r@ == history@,
{
    let mut r: Vec<ContributionMetrics> = Vec::new();
    let mut i: usize = 0;
    while i < history.len()
        invariant
            0 <= i <= history@.len(),
            r@ == history@.subrange(0, i as int),
        decreases history@.len() - i,
    {
        r.push(history[i]);
        proof {
            assert(r@ =~= history@.subrange(0, i + 1 as int));
        }
        i = i + 1;
    }
    proof {
        assert(r@ =~= history@);
    }
    r
}

} // verus!
