//! A small map from accounts to values, kept in insertion order.

use crate::shared::AccountId;
use vstd::prelude::*;

verus! {

/// One binding of an `AccountMap`.
#[derive(Clone, Debug, PartialEq, Eq)]
pub struct Entry<V> {
    pub key: AccountId,
    pub value: V,
}

/// A map keyed by account, for the handful of entries a component keeps per
/// account. No account is bound twice.
#[derive(Clone, Debug, PartialEq, Eq)]
pub struct AccountMap<V> {
    entries: Vec<Entry<V>>,
}

/// The position at which `key` is bound in `entries`, if any.
pub open spec fn position<V>(entries: Seq<Entry<V>>, key: AccountId) -> int {
    choose|i: int| 0 <= i < entries.len() && entries[i].key == key
}

/// `entries` binds `key`.
pub open spec fn binds<V>(entries: Seq<Entry<V>>, key: AccountId) -> bool {
    exists|i: int| 0 <= i < entries.len() && #[trigger] entries[i].key == key
}

/// No account occurs twice among the keys of `entries`.
pub open spec fn distinct_keys<V>(entries: Seq<Entry<V>>) -> bool {
    forall|i: int, j: int|
        0 <= i < j < entries.len() ==> #[trigger] entries[i].key != #[trigger] entries[j].key
}

/// The map that `entries` stand for: each key bound to the value of the
/// entry that holds it.
pub open spec fn bindings<V>(entries: Seq<Entry<V>>) -> Map<AccountId, V> {
    Map::new(
        |k: AccountId| binds(entries, k),
        |k: AccountId| entries[position(entries, k)].value,
    )
}

/// With distinct keys every entry is a binding of the map, and every binding
/// of the map is an entry.
pub proof fn lemma_bindings_are_entries<V>(entries: Seq<Entry<V>>)
    requires
        distinct_keys(entries),
    ensures
        forall|i: int|
            0 <= i < entries.len() ==> bindings(entries).contains_key(
                (#[trigger] entries[i]).key,
            ) && bindings(entries)[entries[i].key] == entries[i].value,
        forall|k: AccountId| #[trigger]
            bindings(entries).contains_key(k) ==> 0 <= position(entries, k) < entries.len()
                && entries[position(entries, k)].key == k,
{
    assert forall|i: int| 0 <= i < entries.len() implies bindings(entries).contains_key(
        (#[trigger] entries[i]).key,
    ) && bindings(entries)[entries[i].key] == entries[i].value by {
        let k = entries[i].key;
        assert(binds(entries, k));
        let j = position(entries, k);
        if j < i {
            assert(entries[j].key != entries[i].key);
        }
        if i < j {
            assert(entries[i].key != entries[j].key);
        }
    }
}

impl<V> View for AccountMap<V> {
    type V = Map<AccountId, V>;

    closed spec fn view(&self) -> Map<AccountId, V> {
        bindings(self.entries@)
    }
}

impl<V> AccountMap<V> {
    /// No account is bound twice.
    pub closed spec fn wf(&self) -> bool {
        distinct_keys(self.entries@)
    }

    pub fn new() -> (m: Self)
        ensures
            m.wf(),
            m@ == Map::<AccountId, V>::empty(),
    {
        let m = AccountMap { entries: Vec::new() };
        assert(m@ =~= Map::<AccountId, V>::empty());
        m
    }

    fn find(&self, key: &AccountId) -> (r: Option<usize>)
        ensures
            match r {
                Some(i) => i < self.entries@.len() && self.entries@[i as int].key == *key,
                None => !binds(self.entries@, *key),
            },
    {
        let mut i: usize = 0;
        while i < self.entries.len()
            invariant
                i <= self.entries@.len(),
                forall|j: int| 0 <= j < i ==> self.entries@[j].key != *key,
            decreases self.entries@.len() - i,
        {
            if self.entries[i].key == *key {
                return Some(i);
            }
            i = i + 1;
        }
        None
    }

    /// Whether `key` is bound.
    pub fn contains(&self, key: &AccountId) -> (r: bool)
        ensures
            r == self@.contains_key(*key),
    {
        self.find(key).is_some()
    }

    /// The value bound to `key`.
    pub fn get(&self, key: &AccountId) -> (r: Option<&V>)
        requires
            self.wf(),
        ensures
            match r {
                Some(v) => self@.contains_key(*key) && *v == self@[*key],
                None => !self@.contains_key(*key),
            },
    {
        match self.find(key) {
            Some(i) => {
                assert(position(self.entries@, *key) == i as int);
                Some(&self.entries[i].value)
            },
            None => None,
        }
    }

    /// Binds `key` to `value`, replacing an earlier binding.
    pub fn insert(&mut self, key: AccountId, value: V)
        requires
            old(self).wf(),
        ensures
            final(self).wf(),
            final(self)@ == old(self)@.insert(key, value),
    {
        let ghost before = self.entries@;
        match self.find(&key) {
            Some(i) => {
                self.entries.set(i, Entry { key, value });
                let ghost after = self.entries@;
                assert forall|k: AccountId| binds(after, k) == binds(before, k) by {
                    if binds(before, k) {
                        let j = position(before, k);
                        assert(after[j].key == k);
                    }
                    if binds(after, k) {
                        let j = position(after, k);
                        assert(before[j].key == k);
                    }
                }
                assert forall|k: AccountId| binds(after, k) implies #[trigger] after[position(
                    after,
                    k,
                )].value == (if k == key {
                    value
                } else {
                    before[position(before, k)].value
                }) by {
                    let j = position(after, k);
                    assert(before[j].key == k);
                    assert(position(before, k) == j);
                }
            },
            None => {
                self.entries.push(Entry { key, value });
                let ghost after = self.entries@;
                assert forall|k: AccountId| binds(after, k) == (binds(before, k) || k == key) by {
                    if binds(before, k) {
                        let j = position(before, k);
                        assert(after[j].key == k);
                    }
                    if k == key {
                        assert(after[before.len() as int].key == k);
                    }
                    if binds(after, k) && k != key {
                        let j = position(after, k);
                        assert(before[j].key == k);
                    }
                }
                assert forall|k: AccountId| binds(after, k) implies #[trigger] after[position(
                    after,
                    k,
                )].value == (if k == key {
                    value
                } else {
                    before[position(before, k)].value
                }) by {
                    let j = position(after, k);
                    if k != key {
                        assert(before[j].key == k);
                        assert(position(before, k) == j);
                    }
                }
            },
        }
        assert(self@ =~= old(self)@.insert(key, value));
    }

    /// Unbinds `key` and hands back what it was bound to.
    pub fn remove(&mut self, key: &AccountId) -> (r: Option<V>)
        requires
            old(self).wf(),
        ensures
            final(self).wf(),
            final(self)@ == old(self)@.remove(*key),
            match r {
                Some(v) => old(self)@.contains_key(*key) && v == old(self)@[*key],
                None => !old(self)@.contains_key(*key),
            },
    {
        let ghost before = self.entries@;
        match self.find(key) {
            Some(i) => {
                assert(position(before, *key) == i as int);
                let entry = self.entries.remove(i);
                let ghost after = self.entries@;
                assert forall|k: AccountId| binds(after, k) == (binds(before, k) && k != *key) by {
                    if binds(before, k) && k != *key {
                        let j = position(before, k);
                        if j < i {
                            assert(after[j].key == k);
                        } else {
                            assert(after[j - 1].key == k);
                        }
                    }
                    if binds(after, k) {
                        let j = position(after, k);
                        if j < i {
                            assert(before[j].key == k);
                        } else {
                            assert(before[j + 1].key == k);
                        }
                    }
                }
                assert forall|k: AccountId| binds(after, k) implies #[trigger] after[position(
                    after,
                    k,
                )].value == before[position(before, k)].value by {
                    let j = position(after, k);
                    if j < i {
                        assert(before[j].key == k);
                        assert(position(before, k) == j);
                    } else {
                        assert(before[j + 1].key == k);
                        assert(position(before, k) == j + 1);
                    }
                }
                assert(self@ =~= old(self)@.remove(*key));
                Some(entry.value)
            },
            None => {
                assert(self@ =~= old(self)@.remove(*key));
                None
            },
        }
    }

    /// The bindings of the map as a list, for a host that stores them.
    pub fn into_entries(self) -> (entries: Vec<Entry<V>>)
        requires
            self.wf(),
        ensures
            distinct_keys(entries@),
            bindings(entries@) == self@,
    {
        self.entries
    }

    /// The map that a list of bindings stands for, if no account occurs
    /// twice among its keys.
    pub fn from_entries(entries: Vec<Entry<V>>) -> (r: Option<Self>)
        ensures
            match r {
                Some(m) => distinct_keys(entries@) && m.wf() && m@ == bindings(entries@),
                None => !distinct_keys(entries@),
            },
    {
        let n = entries.len();
        let mut i: usize = 0;
        while i < n
            invariant
                n == entries@.len(),
                i <= n,
                forall|a: int, b: int|
                    0 <= a < b < i ==> #[trigger] entries@[a].key != #[trigger] entries@[b].key,
            decreases n - i,
        {
            let mut j: usize = 0;
            while j < i
                invariant
                    n == entries@.len(),
                    i < n,
                    j <= i,
                    forall|a: int|
                        0 <= a < j ==> #[trigger] entries@[a].key != entries@[i as int].key,
                decreases i - j,
            {
                if entries[j].key == entries[i].key {
                    assert(entries@[j as int].key == entries@[i as int].key);
                    return None;
                }
                j = j + 1;
            }
            i = i + 1;
        }
        Some(AccountMap { entries })
    }
}

} // verus!
