//! A small association list from keys to amounts, read as a finite map.

use vstd::prelude::*;
use crate::account::{AccountId, Balance};
use crate::sum::{amount_at, lemma_sum_insert, sum_of};

verus! {

/// A key that can be compared at run time.
pub trait Key: Sized {
    /// Decides whether two keys are the same value.
    fn same(&self, other: &Self) -> (r: bool)
        ensures
            r == (*self == *other),
    ;
}

impl Key for AccountId {
    fn same(&self, other: &Self) -> (r: bool) {
        *self == *other
    }
}

impl Key for (AccountId, AccountId) {
    fn same(&self, other: &Self) -> (r: bool) {
        self.0 == other.0 && self.1 == other.1
    }
}

/// One stored pair of a key and its amount.
pub type Entry<K> = (K, Balance);

/// No key occurs in two entries.
pub open spec fn distinct_keys<K>(entries: Seq<Entry<K>>) -> bool {
    forall|i: int, j: int| 0 <= i < j < entries.len() ==> entries[i].0 != entries[j].0
}

/// Some entry carries `key`.
pub open spec fn has_key<K>(entries: Seq<Entry<K>>, key: K) -> bool {
    exists|i: int| 0 <= i < entries.len() && (#[trigger] entries[i]).0 == key
}

/// The map that a list of entries denotes: each entry written in order.
pub open spec fn map_of<K>(entries: Seq<Entry<K>>) -> Map<K, nat>
    decreases entries.len(),
{
    if entries.len() == 0 {
        Map::empty()
    } else {
        map_of(entries.drop_last()).insert(entries.last().0, entries.last().1 as nat)
    }
}

/// The denoted map is finite and holds exactly the listed keys.
pub proof fn lemma_map_of_domain<K>(entries: Seq<Entry<K>>)
    ensures
        map_of(entries).dom().finite(),
        forall|key: K| map_of(entries).contains_key(key) <==> has_key(entries, key),
    decreases entries.len(),
{
    if entries.len() > 0 {
        let front = entries.drop_last();
        let last = entries.last();
        lemma_map_of_domain(front);
        assert(map_of(entries) == map_of(front).insert(last.0, last.1 as nat));
        assert forall|key: K| has_key(entries, key) implies map_of(entries).contains_key(key) by {
            let i = choose|i: int| 0 <= i < entries.len() && (#[trigger] entries[i]).0 == key;
            if i < front.len() {
                assert(front[i].0 == key);
                assert(has_key(front, key));
            }
        }
        assert forall|key: K| map_of(entries).contains_key(key) implies has_key(entries, key) by {
            if key == last.0 {
                assert(entries[entries.len() - 1].0 == key);
            } else {
                assert(map_of(front).contains_key(key));
                assert(has_key(front, key));
                let i = choose|i: int| 0 <= i < front.len() && (#[trigger] front[i]).0 == key;
                assert(entries[i].0 == key);
            }
        }
    } else {
        assert forall|key: K| !has_key(entries, key) by {}
    }
}

/// With distinct keys, the denoted map gives each entry's key that entry's amount.
pub proof fn lemma_map_of_entry<K>(entries: Seq<Entry<K>>, at: int)
    requires
        distinct_keys(entries),
        0 <= at < entries.len(),
    ensures
        map_of(entries).contains_key(entries[at].0),
        map_of(entries)[entries[at].0] == entries[at].1,
    decreases entries.len(),
{
    if at < entries.len() - 1 {
        lemma_map_of_entry(entries.drop_last(), at);
    }
}

/// Appending an entry writes it into the denoted map.
pub proof fn lemma_map_of_push<K>(entries: Seq<Entry<K>>, key: K, amount: Balance)
    ensures
        map_of(entries.push((key, amount))) == map_of(entries).insert(key, amount as nat),
{
    assert(entries.push((key, amount)).drop_last() =~= entries);
}

/// With distinct keys, replacing an entry's amount writes it into the denoted map.
pub proof fn lemma_map_of_update<K>(entries: Seq<Entry<K>>, at: int, amount: Balance)
    requires
        distinct_keys(entries),
        0 <= at < entries.len(),
    ensures
        map_of(entries.update(at, (entries[at].0, amount))) == map_of(entries).insert(
            entries[at].0,
            amount as nat,
        ),
    decreases entries.len(),
{
    let key = entries[at].0;
    let updated = entries.update(at, (key, amount));
    let front = entries.drop_last();
    if at == entries.len() - 1 {
        assert(updated.drop_last() =~= front);
        assert(map_of(updated) =~= map_of(entries).insert(key, amount as nat));
    } else {
        lemma_map_of_update(front, at, amount);
        assert(updated.drop_last() =~= front.update(at, (key, amount)));
        assert(map_of(updated) =~= map_of(entries).insert(key, amount as nat));
    }
}

/// With distinct keys, each further entry adds its amount to the sum of the
/// denoted map.
pub proof fn lemma_sum_of_prefix_step<K>(entries: Seq<Entry<K>>, n: int)
    requires
        distinct_keys(entries),
        0 <= n < entries.len(),
    ensures
        map_of(entries.take(n)).dom().finite(),
        sum_of(map_of(entries.take(n + 1))) == sum_of(map_of(entries.take(n))) + entries[n].1,
{
    let shorter = entries.take(n);
    let longer = entries.take(n + 1);
    lemma_map_of_domain(shorter);
    assert(longer.drop_last() =~= shorter);
    assert(!map_of(shorter).contains_key(entries[n].0)) by {
        if has_key(shorter, entries[n].0) {
            let i = choose|i: int| 0 <= i < shorter.len() && (#[trigger] shorter[i]).0 == entries[n].0;
            assert(entries[i].0 == entries[n].0);
        }
    }
    lemma_sum_insert(map_of(shorter), entries[n].0, entries[n].1 as nat);
}

/// With distinct keys, the sum over the first `n` entries does not exceed the
/// sum over all of them.
pub proof fn lemma_sum_of_prefix_bounded<K>(entries: Seq<Entry<K>>, n: int)
    requires
        distinct_keys(entries),
        0 <= n <= entries.len(),
    ensures
        sum_of(map_of(entries.take(n))) <= sum_of(map_of(entries)),
    decreases entries.len() - n,
{
    if n < entries.len() {
        lemma_sum_of_prefix_step(entries, n);
        lemma_sum_of_prefix_bounded(entries, n + 1);
    } else {
        assert(entries.take(n) =~= entries);
    }
}

/// A finite map from keys to amounts, stored as a list in which no key repeats.
pub struct Table<K: Key> {
    entries: Vec<Entry<K>>,
}

impl<K: Key> View for Table<K> {
    type V = Map<K, nat>;

    closed spec fn view(&self) -> Map<K, nat> {
        map_of(self.entries@)
    }
}

impl<K: Key> Table<K> {
    #[verifier::type_invariant]
    spec fn keys_are_distinct(self) -> bool {
        distinct_keys(self.entries@)
    }

    /// The empty table.
    pub fn new() -> (table: Self)
        ensures
            table@ == Map::<K, nat>::empty(),
    {
        Table { entries: Vec::new() }
    }

    /// Every table denotes a finite map.
    pub proof fn lemma_view_finite(self)
        ensures
            self@.dom().finite(),
    {
        lemma_map_of_domain(self.entries@);
    }

    fn position(&self, key: &K) -> (found: Option<usize>)
        ensures
            match found {
                Some(at) => at < self.entries@.len() && self.entries@[at as int].0 == *key,
                None => !has_key(self.entries@, *key),
            },
    {
        let mut i: usize = 0;
        while i < self.entries.len()
            invariant
                i <= self.entries@.len(),
                forall|j: int| 0 <= j < i ==> self.entries@[j].0 != *key,
            decreases self.entries@.len() - i,
        {
            if self.entries[i].0.same(key) {
                return Some(i);
            }
            i += 1;
        }
        None
    }

    /// The amount stored under `key`, or zero when the key is absent.
    pub fn get(&self, key: &K) -> (amount: Balance)
        ensures
            amount == amount_at(self@, *key),
    {
        proof {
            use_type_invariant(self);
            lemma_map_of_domain(self.entries@);
        }
        match self.position(key) {
            Some(at) => {
                proof {
                    lemma_map_of_entry(self.entries@, at as int);
                }
                self.entries[at].1
            },
            None => 0,
        }
    }

    /// Stores `amount` under `key`, replacing what was there.
    pub fn set(&mut self, key: K, amount: Balance)
        ensures
            final(self)@ == old(self)@.insert(key, amount as nat),
    {
        proof {
            use_type_invariant(&*self);
        }
        let found = self.position(&key);
        let mut entries: Vec<Entry<K>> = Vec::new();
        core::mem::swap(&mut entries, &mut self.entries);
        match found {
            Some(at) => {
                proof {
                    lemma_map_of_update(entries@, at as int, amount);
                }
                entries.set(at, (key, amount));
            },
            None => {
                proof {
                    lemma_map_of_push(entries@, key, amount);
                }
                entries.push((key, amount));
            },
        }
        self.entries = entries;
    }

    /// The stored entries: no key repeats, and they denote this table's map.
    pub fn entries(&self) -> (entries: &Vec<Entry<K>>)
        ensures
            distinct_keys(entries@),
            map_of(entries@) == self@,
    {
        proof {
            use_type_invariant(self);
        }
        &self.entries
    }

    /// The table that holds exactly `entries`, unless a key occurs twice.
    pub fn from_entries(entries: Vec<Entry<K>>) -> (table: Option<Self>)
        ensures
            table is Some <==> distinct_keys(entries@),
            table matches Some(t) ==> t@ == map_of(entries@),
    {
        let mut j: usize = 0;
        while j < entries.len()
            invariant
                j <= entries@.len(),
                forall|a: int, b: int| 0 <= a < b < j ==> entries@[a].0 != entries@[b].0,
            decreases entries@.len() - j,
        {
            let mut i: usize = 0;
            while i < j
                invariant
                    i <= j < entries@.len(),
                    forall|a: int| 0 <= a < i ==> entries@[a].0 != entries@[j as int].0,
                decreases j - i,
            {
                if entries[i].0.same(&entries[j].0) {
                    return None;
                }
                i += 1;
            }
            j += 1;
        }
        Some(Table { entries })
    }

    /// The sum of all stored amounts, unless it exceeds the amount type.
    pub fn total(&self) -> (total: Option<Balance>)
        ensures
            total is Some <==> sum_of(self@) <= Balance::MAX,
            total matches Some(t) ==> t == sum_of(self@),
    {
        proof {
            use_type_invariant(self);
        }
        let mut sum: Balance = 0;
        let mut n: usize = 0;
        while n < self.entries.len()
            invariant
                n <= self.entries@.len(),
                distinct_keys(self.entries@),
                sum == sum_of(map_of(self.entries@.take(n as int))),
            decreases self.entries@.len() - n,
        {
            proof {
                lemma_sum_of_prefix_step(self.entries@, n as int);
                lemma_sum_of_prefix_bounded(self.entries@, n + 1);
            }
            match sum.checked_add(self.entries[n].1) {
                Some(next) => {
                    sum = next;
                },
                None => {
                    return None;
                },
            }
            n += 1;
        }
        proof {
            assert(self.entries@.take(n as int) =~= self.entries@);
        }
        Some(sum)
    }
}

} // verus!
