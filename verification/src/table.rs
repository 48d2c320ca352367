//! A small keyed store: each key is held at most once.
use vstd::prelude::*;

verus! {

/// A key that can be compared.
pub trait Key: Copy {
    /// Whether the two keys are equal.
    fn same(&self, other: &Self) -> (r: bool)
        ensures
            r == (*self == *other),
    ;
}

impl Key for u64 {
    fn same(&self, other: &Self) -> (r: bool) {
        *self == *other
    }
}

/// A map from keys to records.
#[derive(Debug)]
pub struct Table<K: Key, V: Copy> {
    entries: Vec<(K, V)>,
}

/// The map that a list of entries stands for.
spec fn map_of<K, V>(entries: Seq<(K, V)>) -> Map<K, V>
    decreases entries.len(),
{
    if entries.len() == 0 {
        Map::empty()
    } else {
        map_of(entries.drop_last()).insert(entries.last().0, entries.last().1)
    }
}

/// No key occurs twice.
spec fn distinct<K, V>(entries: Seq<(K, V)>) -> bool {
    forall|i: int, j: int| 0 <= i < j < entries.len() ==> entries[i].0 != entries[j].0
}

/// The map holds exactly the entries of the list.
proof fn lemma_map_of<K, V>(entries: Seq<(K, V)>)
    requires
        distinct(entries),
    ensures
        forall|i: int|
            0 <= i < entries.len() ==> map_of(entries).dom().contains(
                (#[trigger] entries[i]).0,
            ) && map_of(entries)[entries[i].0] == entries[i].1,
        forall|k: K|
            #[trigger] map_of(entries).dom().contains(k) ==> exists|i: int|
                0 <= i < entries.len() && (#[trigger] entries[i]).0 == k,
    decreases entries.len(),
{
    if entries.len() > 0 {
        let rest = entries.drop_last();
        lemma_map_of(rest);
        assert forall|i: int| 0 <= i < entries.len() implies map_of(entries).dom().contains(
            (#[trigger] entries[i]).0,
        ) && map_of(entries)[entries[i].0] == entries[i].1 by {
            if i < rest.len() {
                assert(rest[i] == entries[i]);
                assert(entries[i].0 != entries[entries.len() - 1].0);
            }
        }
        assert forall|k: K| #[trigger] map_of(entries).dom().contains(k) implies exists|i: int|
            0 <= i < entries.len() && (#[trigger] entries[i]).0 == k by {
            if k == entries.last().0 {
                assert(entries[entries.len() - 1].0 == k);
            } else {
                assert(map_of(rest).dom().contains(k));
                let i = choose|i: int| 0 <= i < rest.len() && (#[trigger] rest[i]).0 == k;
                assert(entries[i].0 == k);
            }
        }
    }
}

impl<K: Key, V: Copy> Table<K, V> {
    #[verifier::type_invariant]
    spec fn unique(self) -> bool {
        distinct(self.entries@)
    }

    pub closed spec fn view(&self) -> Map<K, V> {
        map_of(self.entries@)
    }

    /// A table that holds nothing.
    pub fn new() -> (r: Self)
        ensures
            r@ == Map::<K, V>::empty(),
    {
        Table { entries: Vec::new() }
    }

    /// Where `key` stands, if it is held.
    fn find(&self, key: K) -> (r: Option<usize>)
        ensures
            match r {
                Some(i) => i < self.entries@.len() && self.entries@[i as int].0 == key,
                None => forall|i: int|
                    0 <= i < self.entries@.len() ==> (#[trigger] self.entries@[i]).0 != key,
            },
    {
        let mut i: usize = 0;
        while i < self.entries.len()
            invariant
                i <= self.entries.len(),
                forall|j: int| 0 <= j < i ==> (#[trigger] self.entries@[j]).0 != key,
            decreases self.entries.len() - i,
        {
            if self.entries[i].0.same(&key) {
                return Some(i);
            }
            i += 1;
        }
        None
    }

    /// The record held under `key`.
    pub fn get(&self, key: K) -> (r: Option<V>)
        ensures
            r == if self@.dom().contains(key) { Some(self@[key]) } else { None },
    {
        proof {
            use_type_invariant(self);
            lemma_map_of(self.entries@);
        }
        match self.find(key) {
            Some(i) => Some(self.entries[i].1),
            None => None,
        }
    }

    /// Puts `value` under `key`, in place of what was there.
    pub fn set(&mut self, key: K, value: V)
        ensures
            final(self)@ == old(self)@.insert(key, value),
    {
        proof {
            use_type_invariant(&*self);
            lemma_map_of(self.entries@);
        }
        let found = self.find(key);
        let mut entries: Vec<(K, V)> = Vec::new();
        std::mem::swap(&mut entries, &mut self.entries);
        let ghost before = entries@;
        match found {
            Some(i) => {
                entries.set(i, (key, value));
            },
            None => {
                entries.push((key, value));
            },
        }
        proof {
            let after = entries@;
            assert(distinct(after));
            lemma_map_of(after);
            assert forall|k: K| #[trigger] map_of(after).dom().contains(k) <==> map_of(
                before,
            ).insert(key, value).dom().contains(k) by {
                if map_of(after).dom().contains(k) {
                    let j = choose|j: int| 0 <= j < after.len() && (#[trigger] after[j]).0 == k;
                    if j < before.len() {
                        assert(before[j].0 == k);
                    }
                }
                if map_of(before).dom().contains(k) {
                    let j = choose|j: int| 0 <= j < before.len() && (#[trigger] before[j]).0 == k;
                    assert(after[j].0 == k);
                }
                if k == key {
                    match found {
                        Some(i) => assert(after[i as int].0 == k),
                        None => assert(after[after.len() - 1].0 == k),
                    }
                }
            }
            assert forall|k: K| #[trigger] map_of(after).dom().contains(k) implies map_of(after)[k]
                == map_of(before).insert(key, value)[k] by {
                let j = choose|j: int| 0 <= j < after.len() && (#[trigger] after[j]).0 == k;
                if k != key {
                    assert(before[j] == after[j]);
                }
            }
            assert(map_of(after) =~= map_of(before).insert(key, value));
        }
        self.entries = entries;
    }

    /// Removes what is held under `key`.
    pub fn remove(&mut self, key: K)
        ensures
            final(self)@ == old(self)@.remove(key),
    {
        proof {
            use_type_invariant(&*self);
            lemma_map_of(self.entries@);
        }
        match self.find(key) {
            Some(i) => {
                let mut entries: Vec<(K, V)> = Vec::new();
                std::mem::swap(&mut entries, &mut self.entries);
                let ghost before = entries@;
                entries.remove(i);
                proof {
                    let after = entries@;
                    let at = i as int;
                    assert forall|a: int, b: int| 0 <= a < b < after.len() implies after[a].0
                        != after[b].0 by {
                        let a0 = if a < at { a } else { a + 1 };
                        let b0 = if b < at { b } else { b + 1 };
                        assert(before[a0].0 != before[b0].0);
                    }
                    lemma_map_of(after);
                    assert forall|k: K| #[trigger] map_of(after).dom().contains(k) <==> map_of(
                        before,
                    ).remove(key).dom().contains(k) by {
                        if map_of(after).dom().contains(k) {
                            let j = choose|j: int|
                                0 <= j < after.len() && (#[trigger] after[j]).0 == k;
                            let j0 = if j < at { j } else { j + 1 };
                            assert(before[j0].0 == k);
                            assert(before[j0].0 != before[at].0) by {
                                assert(j0 != at);
                            }
                        }
                        if map_of(before).remove(key).dom().contains(k) {
                            let j = choose|j: int|
                                0 <= j < before.len() && (#[trigger] before[j]).0 == k;
                            let j1 = if j < at { j } else { j - 1 };
                            assert(after[j1].0 == k);
                        }
                    }
                    assert forall|k: K| #[trigger] map_of(after).dom().contains(k) implies map_of(
                        after,
                    )[k] == map_of(before).remove(key)[k] by {
                        let j = choose|j: int| 0 <= j < after.len() && (#[trigger] after[j]).0 == k;
                        let j0 = if j < at { j } else { j + 1 };
                        assert(before[j0] == after[j]);
                        assert(map_of(before).remove(key).dom().contains(k));
                    }
                    assert(map_of(after) =~= map_of(before).remove(key));
                }
                self.entries = entries;
            },
            None => {
                assert(self@.remove(key) =~= self@);
            },
        }
    }
}

} // verus!
