//! The resolved configuration of one node: string keys bound to values.

use crate::value::Value;
use vstd::prelude::*;

verus! {

/// What the first entry whose key is `k` binds, if any.
pub open spec fn find(entries: Seq<(String, Value)>, k: Seq<char>) -> Option<Value>
    decreases entries.len(),
{
    if entries.len() == 0 {
        None
    } else if entries[0].0@ == k {
        Some(entries[0].1)
    } else {
        find(entries.drop_first(), k)
    }
}

/// No key occurs twice.
pub open spec fn keys_unique(entries: Seq<(String, Value)>) -> bool {
    forall|i: int, j: int|
        0 <= i < entries.len() && 0 <= j < entries.len() && i != j ==> #[trigger] entries[i].0@
            != #[trigger] entries[j].0@
}

/// Where no entry before `i` has key `k`, the lookup is the one that starts at `i`.
proof fn lemma_find_from(entries: Seq<(String, Value)>, k: Seq<char>, i: int)
    requires
        0 <= i <= entries.len(),
        forall|j: int| 0 <= j < i ==> (#[trigger] entries[j]).0@ != k,
    ensures
        find(entries, k) == find(entries.subrange(i, entries.len() as int), k),
    decreases i,
{
    if i > 0 {
        let rest = entries.drop_first();
        assert forall|j: int| 0 <= j < i - 1 implies (#[trigger] rest[j]).0@ != k by {
            assert(rest[j] == entries[j + 1]);
        }
        lemma_find_from(rest, k, i - 1);
        assert(rest.subrange(i - 1, rest.len() as int) =~= entries.subrange(
            i,
            entries.len() as int,
        ));
    } else {
        assert(entries.subrange(0, entries.len() as int) =~= entries);
    }
}

/// An ordered mapping from string keys to values, in order of insertion.
#[derive(Debug, PartialEq)]
pub struct ConfigMap {
    entries: Vec<(String, Value)>,
}

impl ConfigMap {
    /// The bindings, in order.
    pub closed spec fn entries(&self) -> Seq<(String, Value)> {
        self.entries@
    }

    /// What `k` is bound to.
    pub open spec fn lookup(&self, k: Seq<char>) -> Option<Value> {
        find(self.entries(), k)
    }

    /// Every key occurs once.
    #[verifier::type_invariant]
    spec fn unique_keys(&self) -> bool {
        keys_unique(self.entries@)
    }

    /// The map with no keys.
    pub fn new() -> (r: ConfigMap)
        ensures
            r.entries() == Seq::<(String, Value)>::empty(),
            forall|k: Seq<char>| #[trigger] r.lookup(k) is None,
    {
        ConfigMap { entries: Vec::new() }
    }

    /// The number of keys.
    pub fn len(&self) -> (r: usize)
        ensures
            r == self.entries().len(),
    {
        self.entries.len()
    }

    /// The bindings, in order.
    pub fn pairs(&self) -> (r: &Vec<(String, Value)>)
        ensures
            r@ == self.entries(),
    {
        &self.entries
    }

    /// Position of the first entry whose key is `key`.
    fn position(&self, key: &String) -> (r: Option<usize>)
        ensures
            match r {
                Some(i) => i < self.entries().len() && self.entries()[i as int].0@ == key@
                    && forall|j: int| 0 <= j < i ==> (#[trigger] self.entries()[j]).0@ != key@,
                None => forall|j: int|
                    0 <= j < self.entries().len() ==> (#[trigger] self.entries()[j]).0@ != key@,
            },
    {
        let mut i: usize = 0;
        while i < self.entries.len()
            invariant
                i <= self.entries@.len(),
                forall|j: int| 0 <= j < i ==> (#[trigger] self.entries@[j]).0@ != key@,
            decreases self.entries@.len() - i,
        {
            if self.entries[i].0 == *key {
                return Some(i);
            }
            i = i + 1;
        }
        None
    }

    /// What `key` is bound to, if anything.
    pub fn get(&self, key: &str) -> (r: Option<&Value>)
        ensures
            match r {
                Some(v) => self.lookup(key@) == Some(*v),
                None => self.lookup(key@) is None,
            },
    {
        let k = key.to_owned();
        match self.position(&k) {
            Some(i) => {
                proof {
                    lemma_find_from(self.entries@, key@, i as int);
                    let rest = self.entries@.subrange(i as int, self.entries@.len() as int);
                    assert(rest[0] == self.entries@[i as int]);
                }
                Some(&self.entries[i].1)
            },
            None => {
                proof {
                    lemma_find_from(self.entries@, key@, self.entries@.len() as int);
                }
                None
            },
        }
    }

    /// Binds `key` to `value`: an existing binding of `key` is replaced in
    /// place, a new key goes last.
    pub fn insert(self, key: String, value: Value) -> (r: ConfigMap)
        ensures
            r.lookup(key@) == Some(value),
            forall|k: Seq<char>| k != key@ ==> #[trigger] r.lookup(k) == self.lookup(k),
    {
        proof {
            use_type_invariant(&self);
        }
        let ghost old_entries = self.entries@;
        let pos = self.position(&key);
        let mut entries = self.entries;
        match pos {
            Some(i) => {
                entries.set(i, (key, value));
            },
            None => {
                entries.push((key, value));
            },
        }
        let r = ConfigMap { entries };
        proof {
            let new_entries = r.entries@;
            assert(keys_unique(new_entries));
            let at: int = match pos {
                Some(i) => i as int,
                None => old_entries.len() as int,
            };
            assert(new_entries[at].0@ == key@ && new_entries[at].1 == value);
            lemma_find_unique(new_entries, key@);
            assert forall|k: Seq<char>| k != key@ implies #[trigger] r.lookup(k) == self.lookup(
                k,
            ) by {
                lemma_find_unique(new_entries, k);
                lemma_find_unique(old_entries, k);
                if exists|j: int| 0 <= j < old_entries.len() && (#[trigger] old_entries[j]).0@ == k {
                    let j = choose|j: int|
                        0 <= j < old_entries.len() && (#[trigger] old_entries[j]).0@ == k;
                    assert(new_entries[j] == old_entries[j]);
                } else {
                    assert forall|j: int| 0 <= j < new_entries.len() implies (
                    #[trigger] new_entries[j]).0@ != k by {
                        if j < old_entries.len() {
                            assert(old_entries[j].0@ != k);
                        }
                    }
                }
            }
        }
        r
    }
}

impl Clone for ConfigMap {
    /// A map with the same bindings in the same order.
    fn clone(&self) -> (r: ConfigMap)
        ensures
            r.entries() == self.entries(),
    {
        proof {
            use_type_invariant(self);
        }
        let mut entries: Vec<(String, Value)> = Vec::new();
        let mut i: usize = 0;
        while i < self.entries.len()
            invariant
                i <= self.entries@.len(),
                entries@ == self.entries@.subrange(0, i as int),
            decreases self.entries@.len() - i,
        {
            let pair = &self.entries[i];
            entries.push((pair.0.clone(), pair.1.copy()));
            i = i + 1;
            proof {
                assert(entries@ =~= self.entries@.subrange(0, i as int));
            }
        }
        proof {
            assert(entries@ =~= self.entries@);
        }
        ConfigMap { entries }
    }
}

/// With unique keys, the lookup of a key is what its one entry binds.
proof fn lemma_find_unique(entries: Seq<(String, Value)>, k: Seq<char>)
    requires
        keys_unique(entries),
    ensures
        forall|i: int|
            0 <= i < entries.len() && (#[trigger] entries[i]).0@ == k ==> find(entries, k)
                == Some(entries[i].1),
        (forall|i: int| 0 <= i < entries.len() ==> (#[trigger] entries[i]).0@ != k) ==> find(
            entries,
            k,
        ) is None,
{
    assert forall|i: int|
        0 <= i < entries.len() && (#[trigger] entries[i]).0@ == k implies find(entries, k)
        == Some(entries[i].1) by {
        lemma_find_from(entries, k, i);
        let rest = entries.subrange(i, entries.len() as int);
        assert(rest[0] == entries[i]);
    }
    if forall|i: int| 0 <= i < entries.len() ==> (#[trigger] entries[i]).0@ != k {
        lemma_find_from(entries, k, entries.len() as int);
    }
}

} // verus!
