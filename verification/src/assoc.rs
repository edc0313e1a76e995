//! Association lists keyed by strings.
//!
//! Balances, contribution histories and the redemption catalog are all
//! maps from a string identifier to a value, kept as vectors of pairs with
//! pairwise-distinct keys. This module gives the shared lookup model and
//! the search routine the components build on.

use vstd::prelude::*;

verus! {

/// No two entries carry the same key.
pub open spec fn keys_unique<V>(s: Seq<(String, V)>) -> bool {
    forall|i: int, j: int| 0 <= i < j < s.len() ==> s[i].0@ != s[j].0@
}

/// The value stored under `k`: the first entry whose key matches.
pub open spec fn lookup<V>(s: Seq<(String, V)>, k: Seq<char>) -> Option<V>
    decreases s.len(),
{
    if s.len() <= 0 {
        None
    } else if s[0].0@ == k {
        Some(s[0].1)
    } else {
        lookup(s.drop_first(), k)
    }
}

/// A match at `i`, with no match before it, is what `lookup` returns.
pub proof fn lemma_lookup_match<V>(s: Seq<(String, V)>, k: Seq<char>, i: int)
    requires
        0 <= i < s.len(),
        s[i].0@ == k,
        forall|j: int| 0 <= j < i ==> s[j].0@ != k,
    ensures
        lookup(s, k) == Some(s[i].1),
    decreases i,
{
    if i > 0 {
        lemma_lookup_match(s.drop_first(), k, i - 1);
    }
}

/// Where no entry carries `k`, `lookup` finds nothing.
pub proof fn lemma_lookup_none<V>(s: Seq<(String, V)>, k: Seq<char>)
    requires
        forall|j: int| 0 <= j < s.len() ==> s[j].0@ != k,
    ensures
        lookup(s, k) is None,
    decreases s.len(),
{
    if s.len() > 0 {
        lemma_lookup_none(s.drop_first(), k);
    }
}

/// Whatever `lookup` finds is stored in some entry.
pub proof fn lemma_lookup_some_index<V>(s: Seq<(String, V)>, k: Seq<char>)
    requires
        lookup(s, k) is Some,
    ensures
        exists|i: int|
            0 <= i < s.len() && s[i].0@ == k && lookup(s, k) == Some(s[i].1),
    decreases s.len(),
{
    if s.len() > 0 && s[0].0@ != k {
        lemma_lookup_some_index(s.drop_first(), k);
        let i = choose|i: int|
            0 <= i < s.drop_first().len() && s.drop_first()[i].0@ == k
                && lookup(s.drop_first(), k) == Some(s.drop_first()[i].1);
        assert(s[i + 1].0@ == k && lookup(s, k) == Some(s[i + 1].1));
    }
}

/// Replacing the entry at `i` without changing its key leaves every other
/// key's lookup as it was.
pub proof fn lemma_lookup_update_other<V>(s: Seq<(String, V)>, i: int, p: (String, V), k: Seq<char>)
    requires
        0 <= i < s.len(),
        s[i].0@ == p.0@,
        k != p.0@,
    ensures
        lookup(s.update(i, p), k) == lookup(s, k),
    decreases s.len(),
{
    let s2 = s.update(i, p);
    if i == 0 {
        assert(s2.drop_first() =~= s.drop_first());
    } else {
        if s[0].0@ != k {
            assert(s2.drop_first() =~= s.drop_first().update(i - 1, p));
            lemma_lookup_update_other(s.drop_first(), i - 1, p, k);
        }
    }
}

/// Appending an entry with a fresh key leaves every other key's lookup as
/// it was.
pub proof fn lemma_lookup_push_other<V>(s: Seq<(String, V)>, p: (String, V), k: Seq<char>)
    requires
        k != p.0@,
    ensures
        lookup(s.push(p), k) == lookup(s, k),
    decreases s.len(),
{
    if s.len() == 0 {
        assert(s.push(p)[0] == p);
        assert(s.push(p).drop_first() =~= Seq::<(String, V)>::empty());
    } else {
        if s[0].0@ != k {
            assert(s.push(p).drop_first() =~= s.drop_first().push(p));
            lemma_lookup_push_other(s.drop_first(), p, k);
        }
    }
}

/// The index of the first entry whose key equals `key`, if any.
pub fn find_index<V>(entries: &Vec<(String, V)>, key: &String) -> (r: Option<usize>)
    ensures
        match r {
            Some(i) => 0 <= i < entries@.len() && entries@[i as int].0@ == key@
                && forall|j: int| 0 <= j < i ==> entries@[j].0@ != key@,
            None => forall|j: int| 0 <= j < entries@.len() ==> entries@[j].0@ != key@,
        },
{
    let mut i: usize = 0;
    while i < entries.len()
        invariant
            0 <= i <= entries@.len(),
            forall|j: int| 0 <= j < i ==> entries@[j].0@ != key@,
        decreases entries@.len() - i,
    {
        if entries[i].0 == *key {
            return Some(i);
        }
        i = i + 1;
    }
    None
}

} // verus!
